//! Voice-channel decisions: where the bot and the caller are, how many humans
//! remain with the bot, and what `/join`, `/start` and autoleave do.

use vstd::prelude::*;

use crate::autoleave::AutoLeaveMode;
use crate::commands::CommandError;

verus! {

/// One member's voice state in a guild.
#[derive(Clone, Copy, Debug, PartialEq, Eq, Structural)]
pub struct VoiceMember {
    pub user_id: u64,
    /// The voice channel the member is in, if any.
    pub channel_id: Option<u64>,
    /// Whether the member is known to be a bot account.
    pub is_bot: bool,
}

/// The voice state of `user` among `members`: the first entry for that user,
/// if there is one.
pub open spec fn member_state(members: Seq<VoiceMember>, user: u64) -> Option<VoiceMember>
    decreases members.len(),
{
    if members.len() == 0 {
        None
    } else if members[0].user_id == user {
        Some(members[0])
    } else {
        member_state(members.drop_first(), user)
    }
}

/// The voice channel that `user` is in, according to `members`.
pub open spec fn channel_of(members: Seq<VoiceMember>, user: u64) -> Option<u64> {
    match member_state(members, user) {
        Some(m) => m.channel_id,
        None => None,
    }
}

/// `m` is a human, other than the bot, in `channel`.
pub open spec fn is_human_in(m: VoiceMember, bot: u64, channel: u64) -> bool {
    m.user_id != bot && m.channel_id == Some(channel) && !m.is_bot
}

/// How many of `members` are humans, other than the bot, in `channel`.
pub open spec fn human_count(members: Seq<VoiceMember>, bot: u64, channel: u64) -> nat
    decreases members.len(),
{
    if members.len() == 0 {
        0
    } else {
        human_count(members.drop_last(), bot, channel) + if is_human_in(
            members.last(),
            bot,
            channel,
        ) {
            1nat
        } else {
            0nat
        }
    }
}

/// The voice channel that `user` is in, according to `members`.
pub fn voice_channel_of(members: &Vec<VoiceMember>, user: u64) -> (r: Option<u64>)
    ensures
        r == channel_of(members@, user),
{
    let mut i: usize = 0;
    assert(members@.skip(0) == members@);
    while i < members.len()
        invariant
            i <= members.len(),
            member_state(members@, user) == member_state(members@.skip(i as int), user),
        decreases members.len() - i,
    {
        assert(members@.skip(i as int)[0] == members@[i as int]);
        if members[i].user_id == user {
            return members[i].channel_id;
        }
        assert(members@.skip(i as int).drop_first() == members@.skip(i + 1));
        i = i + 1;
    }
    None
}

/// The voice channel the bot is in, when the guild's voice states are known.
pub fn bot_voice_channel(members: Option<&Vec<VoiceMember>>, bot_user_id: u64) -> (r: Option<u64>)
    ensures
        r == (match members {
            Some(ms) => channel_of(ms@, bot_user_id),
            None => None,
        }),
{
    match members {
        Some(ms) => voice_channel_of(ms, bot_user_id),
        None => None,
    }
}

/// How many of `members` are humans, other than the bot, in `channel`.
pub fn count_humans_in_channel(members: &Vec<VoiceMember>, bot_user_id: u64, channel: u64) -> (r:
    usize)
    ensures
        r == human_count(members@, bot_user_id, channel),
        r == members@.filter(
            |m: VoiceMember| m.user_id != bot_user_id && m.channel_id == Some(channel) && !m.is_bot,
        ).len(),
{
    proof {
        law_human_count_is_filter_len(members@, bot_user_id, channel);
    }
    let mut count: usize = 0;
    let mut i: usize = 0;
    while i < members.len()
        invariant
            i <= members.len(),
            count <= i,
            count == human_count(members@.take(i as int), bot_user_id, channel),
        decreases members.len() - i,
    {
        let m = members[i];
        assert(members@.take(i + 1).drop_last() == members@.take(i as int));
        if m.user_id != bot_user_id && m.channel_id == Some(channel) && !m.is_bot {
            count = count + 1;
        }
        i = i + 1;
    }
    assert(members@.take(members.len() as int) == members@);
    count
}

/// How many humans share the bot's voice channel; `None` when the guild's
/// voice states are unknown or the bot is in no voice channel.
pub fn count_humans_in_bot_channel(members: Option<&Vec<VoiceMember>>, bot_user_id: u64) -> (r:
    Option<usize>)
    ensures
        r == (match members {
            Some(ms) => match channel_of(ms@, bot_user_id) {
                Some(c) => Some(human_count(ms@, bot_user_id, c) as usize),
                None => None,
            },
            None => None,
        }),
{
    match members {
        Some(ms) => match voice_channel_of(ms, bot_user_id) {
            Some(c) => Some(count_humans_in_channel(ms, bot_user_id, c)),
            None => None,
        },
        None => None,
    }
}

/// The guild and voice channel a command's caller is in. It fails when the
/// command came from outside a guild, when the guild's voice states are not
/// known, or when the caller is in no voice channel.
pub fn resolve_user_voice_channel(
    guild_id: Option<u64>,
    members: Option<&Vec<VoiceMember>>,
    user_id: u64,
) -> (r: Result<(u64, u64), CommandError>)
    ensures
        r == (match guild_id {
            None => Err(CommandError::NotInGuild),
            Some(g) => match members {
                None => Err(CommandError::GuildNotCached),
                Some(ms) => match channel_of(ms@, user_id) {
                    None => Err(CommandError::NotInVoiceChannel),
                    Some(c) => Ok((g, c)),
                },
            },
        }),
{
    let guild = match guild_id {
        Some(g) => g,
        None => return Err(CommandError::NotInGuild),
    };
    let ms = match members {
        Some(ms) => ms,
        None => return Err(CommandError::GuildNotCached),
    };
    match voice_channel_of(ms, user_id) {
        Some(c) => Ok((guild, c)),
        None => Err(CommandError::NotInVoiceChannel),
    }
}

/// Whether the bot already sits in `target`.
pub fn already_in_channel(bot_channel: Option<u64>, target: u64) -> (r: bool)
    ensures
        r == (bot_channel == Some(target)),
{
    match bot_channel {
        Some(c) => c == target,
        None => false,
    }
}

/// What `/start` does.
#[derive(Clone, Copy, Debug, PartialEq, Eq, Structural)]
pub enum StartPlan {
    /// The guild already streams; nothing changes.
    AlreadyActive,
    /// Start streaming, joining the caller's channel first when asked.
    Play { join_first: bool },
}

/// What `/start` does, given whether the guild already has a track, the
/// bot's voice channel and the caller's voice channel.
pub fn plan_start(track_active: bool, bot_channel: Option<u64>, target: u64) -> (r: StartPlan)
    ensures
        r == (if track_active {
            StartPlan::AlreadyActive
        } else {
            StartPlan::Play { join_first: bot_channel != Some(target) }
        }),
{
    if track_active {
        StartPlan::AlreadyActive
    } else {
        StartPlan::Play { join_first: !already_in_channel(bot_channel, target) }
    }
}

/// Whether the bot should leave its voice channel on its own: autoleave is on
/// for the guild and no human remains with the bot.
pub fn should_autoleave(mode: AutoLeaveMode, humans: Option<usize>) -> (r: bool)
    ensures
        r == (mode == AutoLeaveMode::WhenNoHumans && humans == Some(0usize)),
{
    match mode {
        AutoLeaveMode::WhenNoHumans => match humans {
            Some(n) => n == 0,
            None => false,
        },
        AutoLeaveMode::Disabled => false,
    }
}

/// No more humans are counted than there are members.
pub proof fn law_human_count_bounded(members: Seq<VoiceMember>, bot: u64, channel: u64)
    ensures
        human_count(members, bot, channel) <= members.len(),
    decreases members.len(),
{
    if members.len() > 0 {
        law_human_count_bounded(members.drop_last(), bot, channel);
    }
}

/// The bot's own voice state never counts as a human.
pub proof fn law_bot_not_counted(members: Seq<VoiceMember>, bot_member: VoiceMember, channel: u64)
    ensures
        human_count(members.push(bot_member), bot_member.user_id, channel) == human_count(
            members,
            bot_member.user_id,
            channel,
        ),
{
    assert(members.push(bot_member).drop_last() == members);
}

/// The number of humans counted is the number of members that are not the
/// bot, sit in `channel`, and are not bot accounts.
pub proof fn law_human_count_is_filter_len(members: Seq<VoiceMember>, bot: u64, channel: u64)
    ensures
        human_count(members, bot, channel) == members.filter(
            |m: VoiceMember| m.user_id != bot && m.channel_id == Some(channel) && !m.is_bot,
        ).len(),
    decreases members.len(),
{
    let pred = |m: VoiceMember| m.user_id != bot && m.channel_id == Some(channel) && !m.is_bot;
    reveal_with_fuel(Seq::<_>::filter, 1);
    if members.len() > 0 {
        law_human_count_is_filter_len(members.drop_last(), bot, channel);
        let sub = members.drop_last().filter(pred);
        assert(members.filter(pred) == if pred(members.last()) {
            sub.push(members.last())
        } else {
            sub
        });
        assert(pred(members.last()) == is_human_in(members.last(), bot, channel));
    } else {
        assert(members.filter(pred) == members);
    }
}

/// One more member raises the count by one exactly when that member is a
/// human other than the bot in `channel`, whatever the order of the ids.
pub proof fn law_human_count_push(members: Seq<VoiceMember>, m: VoiceMember, bot: u64, channel: u64)
    ensures
        human_count(members.push(m), bot, channel) == human_count(members, bot, channel) + if m.user_id
            != bot && m.channel_id == Some(channel) && !m.is_bot {
            1int
        } else {
            0int
        },
        human_count(Seq::empty(), bot, channel) == 0,
{
    assert(members.push(m).drop_last() == members);
}

} // verus!
