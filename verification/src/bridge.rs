//! The PCM bridge: chunks of bytes broadcast by the audio ingest are turned
//! into a byte stream that the voice driver reads from.

use tokio::sync::broadcast::{Receiver, Sender};
use vstd::prelude::*;

verus! {

#[verifier::external_type_specification]
#[verifier::external_body]
#[verifier::reject_recursive_types(T)]
pub struct ExBroadcastSender<T>(Sender<T>);

#[verifier::external_type_specification]
#[verifier::external_body]
#[verifier::reject_recursive_types(T)]
pub struct ExBroadcastReceiver<T>(Receiver<T>);

/// The number of chunks the broadcast channel keeps for slow readers.
pub const CHANNEL_CAPACITY: usize = 1024;

/// The capacity that was asked for when the broadcast channel behind a
/// sending end was made (tokio rounds it up to a power of two for its ring
/// buffer). Every end of one channel shares it.
pub uninterp spec fn sender_capacity(sender: Sender<Vec<u8>>) -> usize;

/// The capacity that was asked for when the broadcast channel behind a
/// receiving end was made.
pub uninterp spec fn receiver_capacity(receiver: Receiver<Vec<u8>>) -> usize;

/// `tokio::sync::broadcast::channel`: creates a channel with room for
/// `capacity` messages. It panics when `capacity` is 0 or above
/// `usize::MAX / 2`, which `requires` rules out. The contract claims only
/// that both ends belong to a channel made with `capacity`.
#[verifier::external_body]
fn broadcast_channel(capacity: usize) -> (r: (Sender<Vec<u8>>, Receiver<Vec<u8>>))
    requires
        0 < capacity <= usize::MAX / 2,
    ensures
        sender_capacity(r.0) == capacity,
        receiver_capacity(r.1) == capacity,
{
    tokio::sync::broadcast::channel(capacity)
}

/// `Sender::clone`: another sending end of the same channel (it shares the
/// channel's state); the contract claims only that it belongs to a channel
/// made with the same capacity.
#[verifier::external_body]
fn clone_sender(sender: &Sender<Vec<u8>>) -> (r: Sender<Vec<u8>>)
    ensures
        sender_capacity(r) == sender_capacity(*sender),
{
    sender.clone()
}

/// `Sender::subscribe`: a new receiving end of the same channel, which sees
/// the messages sent from now on; the contract claims only that it belongs
/// to a channel made with the same capacity.
#[verifier::external_body]
fn subscribe(sender: &Sender<Vec<u8>>) -> (r: Receiver<Vec<u8>>)
    ensures
        receiver_capacity(r) == sender_capacity(*sender),
{
    sender.subscribe()
}

/// What one receive on the broadcast channel gave.
pub enum RecvOutcome {
    /// The next chunk sent on the channel.
    Chunk(Vec<u8>),
    /// The receiver fell behind and this many chunks were dropped.
    Lagged(u64),
    /// Every sender is gone; no chunk will come any more.
    Closed,
}

/// The sending side of the bridge: the audio ingest broadcasts PCM chunks
/// through it.
pub struct PcmBridge {
    sender: Sender<Vec<u8>>,
}

impl PcmBridge {
    /// The capacity of the bridge's broadcast channel, in chunks.
    pub closed spec fn capacity(&self) -> usize {
        sender_capacity(self.sender)
    }

    /// A bridge over a new broadcast channel of [`CHANNEL_CAPACITY`] chunks.
    pub fn new() -> (r: PcmBridge)
        ensures
            r.capacity() == CHANNEL_CAPACITY,
    {
        let (sender, _receiver) = broadcast_channel(CHANNEL_CAPACITY);
        PcmBridge { sender }
    }

    /// A sending end of the bridge's channel, for the audio ingest.
    pub fn sender(&self) -> (r: Sender<Vec<u8>>)
        ensures
            sender_capacity(r) == self.capacity(),
    {
        clone_sender(&self.sender)
    }

    /// A receiving end of the bridge's channel, which sees the chunks sent
    /// from now on, and an empty byte stream for the received chunks.
    pub fn source(&self) -> (r: (Receiver<Vec<u8>>, PcmBridgeSource))
        ensures
            receiver_capacity(r.0) == self.capacity(),
            r.1.well_formed(),
            r.1.buffered() == Seq::<u8>::empty(),
            !r.1.is_finished(),
            r.1.accepted() == Seq::<u8>::empty(),
            r.1.delivered() == Seq::<u8>::empty(),
    {
        let receiver = subscribe(&self.sender);
        let src = PcmBridgeSource {
            pending: Vec::new(),
            offset: 0,
            finished: false,
            accepted: Ghost(Seq::empty()),
            delivered: Ghost(Seq::empty()),
        };
        assert(src.pending@.subrange(0, 0) =~= Seq::<u8>::empty());
        (receiver, src)
    }
}

/// The reading side of the bridge: the bytes of the chunks handed to it, in
/// the order they were handed over. Whoever owns the channel's receiving end
/// receives and passes each outcome to [`PcmBridgeSource::accept`].
pub struct PcmBridgeSource {
    pending: Vec<u8>,
    offset: usize,
    finished: bool,
    /// Every byte of every chunk accepted so far.
    accepted: Ghost<Seq<u8>>,
    /// Every byte handed out by reads so far.
    delivered: Ghost<Seq<u8>>,
}

impl PcmBridgeSource {
    /// The position in the current chunk lies within it, a chunk that has
    /// been read to its end is dropped, an ended stream holds no bytes, and
    /// the bytes handed out followed by those buffered are the bytes
    /// accepted.
    pub closed spec fn well_formed(&self) -> bool {
        &&& {
            ||| self.offset < self.pending@.len()
            ||| self.pending@.len() == 0 && self.offset == 0
        }
        &&& self.finished ==> self.pending@.len() == 0
        &&& self.delivered@ + self.buffered() == self.accepted@
    }

    /// The bytes of all chunks accepted so far, in order.
    pub closed spec fn accepted(&self) -> Seq<u8> {
        self.accepted@
    }

    /// The bytes handed out by all reads so far, in order.
    pub closed spec fn delivered(&self) -> Seq<u8> {
        self.delivered@
    }

    /// The bytes received and not yet read.
    pub closed spec fn buffered(&self) -> Seq<u8> {
        self.pending@.subrange(self.offset as int, self.pending@.len() as int)
    }

    /// Whether the channel has closed; the stream has then ended for good.
    pub closed spec fn is_finished(&self) -> bool {
        self.finished
    }

    /// Reads from the bytes already received. At the end of the stream it
    /// gives `Some(0)`; with nothing buffered it gives `None` and changes
    /// nothing; else it moves as many buffered bytes as fit to the front of
    /// `buf` and gives their number.
    pub fn read_pending(&mut self, buf: &mut [u8]) -> (r: Option<usize>)
        requires
            old(self).well_formed(),
        ensures
            final(self).well_formed(),
            old(self).is_finished() ==> r == Some(0usize) && final(buf)@ == old(buf)@
                && final(self).buffered() == old(self).buffered() && final(self).is_finished(),
            !old(self).is_finished() && old(self).buffered().len() == 0 ==> r is None
                && final(buf)@ == old(buf)@ && final(self).buffered() == old(self).buffered()
                && !final(self).is_finished(),
            !old(self).is_finished() && old(self).buffered().len() > 0 ==> ({
                let n = if old(self).buffered().len() < old(buf)@.len() {
                    old(self).buffered().len()
                } else {
                    old(buf)@.len()
                };
                &&& r == Some(n as usize)
                &&& final(buf)@ == old(self).buffered().take(n as int) + old(buf)@.skip(n as int)
                &&& final(self).buffered() == old(self).buffered().skip(n as int)
                &&& final(self).delivered() == old(self).delivered() + old(self).buffered().take(
                    n as int,
                )
                &&& !final(self).is_finished()
            }),
            final(self).accepted() == old(self).accepted(),
            old(self).is_finished() || old(self).buffered().len() == 0 ==> final(self).delivered()
                == old(self).delivered(),
    {
        if self.finished {
            return Some(0);
        }
        if self.offset >= self.pending.len() {
            return None;
        }
        let remaining = self.pending.len() - self.offset;
        let to_copy = if remaining < buf.len() {
            remaining
        } else {
            buf.len()
        };
        let ghost old_buf = buf@;
        let ghost old_buffered = self.buffered();
        let mut i: usize = 0;
        while i < to_copy
            invariant
                i <= to_copy <= remaining,
                remaining == self.pending.len() - self.offset,
                self.offset < self.pending.len(),
                to_copy <= old_buf.len(),
                buf@.len() == old_buf.len(),
                old_buffered == self.pending@.subrange(self.offset as int, self.pending@.len() as int),
                buf@ == old_buffered.take(i as int) + old_buf.skip(i as int),
            decreases to_copy - i,
        {
            let b = self.pending[self.offset + i];
            buf[i] = b;
            assert(buf@ == old_buffered.take(i + 1) + old_buf.skip(i + 1));
            i = i + 1;
        }
        let new_offset = self.offset + to_copy;
        let ghost old_delivered = self.delivered@;
        assert(old_delivered + old_buffered == self.accepted@);
        proof {
            self.delivered = Ghost(self.delivered@ + old_buffered.take(to_copy as int));
            assert(old_buffered.take(to_copy as int) + old_buffered.skip(to_copy as int)
                =~= old_buffered);
        }
        if new_offset >= self.pending.len() {
            self.offset = 0;
            self.pending = Vec::new();
            assert(self.buffered() =~= old_buffered.skip(to_copy as int));
        } else {
            self.offset = new_offset;
            assert(self.buffered() =~= old_buffered.skip(to_copy as int));
        }
        assert(self.delivered@ + self.buffered() =~= old_delivered + (old_buffered.take(
            to_copy as int,
        ) + old_buffered.skip(to_copy as int)));
        Some(to_copy)
    }

    /// Takes in what one receive on the channel gave: a non-empty chunk
    /// becomes the buffered bytes, an empty chunk or a lag notice changes
    /// nothing, and a closed channel ends the stream.
    pub fn accept(&mut self, outcome: RecvOutcome)
        requires
            old(self).well_formed(),
            !old(self).is_finished(),
            old(self).buffered().len() == 0,
        ensures
            final(self).well_formed(),
            final(self).delivered() == old(self).delivered(),
            final(self).accepted() == (match outcome {
                RecvOutcome::Chunk(c) => old(self).accepted() + c@,
                _ => old(self).accepted(),
            }),
            match outcome {
                RecvOutcome::Chunk(c) => if c@.len() > 0 {
                    final(self).buffered() == c@ && !final(self).is_finished()
                } else {
                    final(self).buffered().len() == 0 && !final(self).is_finished()
                },
                RecvOutcome::Lagged(_) => final(self).buffered().len() == 0
                    && !final(self).is_finished(),
                RecvOutcome::Closed => final(self).buffered().len() == 0 && final(self).is_finished(),
            },
    {
        match outcome {
            RecvOutcome::Chunk(chunk) => {
                proof {
                    self.accepted = Ghost(self.accepted@ + chunk@);
                    assert(self.accepted@ =~= self.delivered@ + chunk@);
                }
                if chunk.len() > 0 {
                    self.pending = chunk;
                    self.offset = 0;
                    assert(self.buffered() =~= self.pending@);
                }
            },
            RecvOutcome::Lagged(_) => {},
            RecvOutcome::Closed => {
                self.finished = true;
            },
        }
    }
}

/// Whatever has been read from a stream is, in order, the start of what was
/// handed to it, and once the stream has ended every accepted byte has been
/// read: no byte is lost, duplicated or reordered.
pub proof fn law_stream_delivers_accepted(src: PcmBridgeSource)
    requires
        src.well_formed(),
    ensures
        src.delivered() + src.buffered() == src.accepted(),
        src.delivered() == src.accepted().take(src.delivered().len() as int),
        src.is_finished() ==> src.delivered() == src.accepted(),
{
    assert(src.accepted().take(src.delivered().len() as int) =~= src.delivered());
    if src.is_finished() {
        assert(src.buffered() =~= Seq::<u8>::empty());
        assert(src.delivered() + src.buffered() =~= src.delivered());
    }
}

} // verus!
