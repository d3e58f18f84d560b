use nekostream::bridge::{PcmBridge, RecvOutcome};
use tokio::sync::broadcast::error::RecvError;

#[test]
fn reads_chunk_in_pieces() {
    let bridge = PcmBridge::new();
    let (_rx, mut src) = bridge.source();
    let mut buf = [0u8; 3];
    assert_eq!(src.read_pending(&mut buf), None);
    src.accept(RecvOutcome::Chunk(vec![1, 2, 3, 4, 5]));
    assert_eq!(src.read_pending(&mut buf), Some(3));
    assert_eq!(buf, [1, 2, 3]);
    let mut buf = [9u8; 4];
    assert_eq!(src.read_pending(&mut buf), Some(2));
    assert_eq!(buf, [4, 5, 9, 9]);
    assert_eq!(src.read_pending(&mut buf), None);
}

#[test]
fn empty_buffer_reads_zero() {
    let bridge = PcmBridge::new();
    let (_rx, mut src) = bridge.source();
    src.accept(RecvOutcome::Chunk(vec![7]));
    let mut empty: [u8; 0] = [];
    assert_eq!(src.read_pending(&mut empty), Some(0));
    let mut one = [0u8; 1];
    assert_eq!(src.read_pending(&mut one), Some(1));
    assert_eq!(one, [7]);
}

#[test]
fn skips_empty_chunks_and_lag() {
    let bridge = PcmBridge::new();
    let (_rx, mut src) = bridge.source();
    src.accept(RecvOutcome::Chunk(vec![]));
    src.accept(RecvOutcome::Lagged(3));
    let mut buf = [0u8; 2];
    assert_eq!(src.read_pending(&mut buf), None);
}

#[test]
fn closed_channel_ends_stream() {
    let bridge = PcmBridge::new();
    let (_rx, mut src) = bridge.source();
    src.accept(RecvOutcome::Closed);
    let mut buf = [5u8; 2];
    assert_eq!(src.read_pending(&mut buf), Some(0));
    assert_eq!(buf, [5, 5]);
    assert_eq!(src.read_pending(&mut buf), Some(0));
}

#[test]
fn receives_sent_chunks_in_order() {
    let bridge = PcmBridge::new();
    let (mut rx, mut src) = bridge.source();
    let tx = bridge.sender();
    tx.send(vec![10, 20]).unwrap();
    tx.send(vec![]).unwrap();
    tx.send(vec![30]).unwrap();
    drop(tx);
    drop(bridge);
    let mut out = Vec::new();
    let mut buf = [0u8; 8];
    loop {
        match src.read_pending(&mut buf) {
            Some(0) => break,
            Some(n) => out.extend_from_slice(&buf[..n]),
            None => {
                let outcome = match rx.try_recv() {
                    Ok(chunk) => RecvOutcome::Chunk(chunk),
                    Err(_) => match rx.blocking_recv() {
                        Ok(chunk) => RecvOutcome::Chunk(chunk),
                        Err(RecvError::Lagged(n)) => RecvOutcome::Lagged(n),
                        Err(RecvError::Closed) => RecvOutcome::Closed,
                    },
                };
                src.accept(outcome);
            }
        }
    }
    assert_eq!(out, vec![10, 20, 30]);
}
