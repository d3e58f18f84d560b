use nekostream::autoleave::AutoLeaveMode;
use nekostream::commands::CommandError;
use nekostream::voice::{
    already_in_channel, bot_voice_channel, count_humans_in_bot_channel, count_humans_in_channel,
    plan_start, resolve_user_voice_channel, should_autoleave, voice_channel_of, StartPlan,
    VoiceMember,
};

const BOT: u64 = 1;

fn member(user_id: u64, channel_id: Option<u64>, is_bot: bool) -> VoiceMember {
    VoiceMember { user_id, channel_id, is_bot }
}

fn guild() -> Vec<VoiceMember> {
    vec![
        member(BOT, Some(100), true),
        member(2, Some(100), false),
        member(3, Some(200), false),
        member(4, Some(100), true),
        member(5, None, false),
        member(6, Some(100), false),
    ]
}

#[test]
fn finds_channels() {
    let g = guild();
    assert_eq!(voice_channel_of(&g, 3), Some(200));
    assert_eq!(voice_channel_of(&g, 5), None);
    assert_eq!(voice_channel_of(&g, 99), None);
    assert_eq!(bot_voice_channel(Some(&g), BOT), Some(100));
    assert_eq!(bot_voice_channel(None, BOT), None);
}

#[test]
fn counts_humans_only() {
    let g = guild();
    assert_eq!(count_humans_in_channel(&g, BOT, 100), 2);
    assert_eq!(count_humans_in_channel(&g, BOT, 200), 1);
    assert_eq!(count_humans_in_bot_channel(Some(&g), BOT), Some(2));
    assert_eq!(count_humans_in_bot_channel(None, BOT), None);
    assert_eq!(count_humans_in_bot_channel(Some(&g), 77), None);
    let lonely = vec![member(BOT, Some(9), true), member(4, Some(9), true)];
    assert_eq!(count_humans_in_bot_channel(Some(&lonely), BOT), Some(0));
}

#[test]
fn resolves_caller_channel() {
    let g = guild();
    assert_eq!(resolve_user_voice_channel(None, Some(&g), 2), Err(CommandError::NotInGuild));
    assert_eq!(resolve_user_voice_channel(Some(7), None, 2), Err(CommandError::GuildNotCached));
    assert_eq!(
        resolve_user_voice_channel(Some(7), Some(&g), 5),
        Err(CommandError::NotInVoiceChannel)
    );
    assert_eq!(resolve_user_voice_channel(Some(7), Some(&g), 3), Ok((7, 200)));
}

#[test]
fn start_plans() {
    assert_eq!(plan_start(true, None, 1), StartPlan::AlreadyActive);
    assert_eq!(plan_start(false, Some(1), 1), StartPlan::Play { join_first: false });
    assert_eq!(plan_start(false, Some(2), 1), StartPlan::Play { join_first: true });
    assert_eq!(plan_start(false, None, 1), StartPlan::Play { join_first: true });
    assert!(already_in_channel(Some(4), 4));
    assert!(!already_in_channel(None, 4));
}

#[test]
fn autoleave_decision() {
    assert!(should_autoleave(AutoLeaveMode::WhenNoHumans, Some(0)));
    assert!(!should_autoleave(AutoLeaveMode::WhenNoHumans, Some(1)));
    assert!(!should_autoleave(AutoLeaveMode::WhenNoHumans, None));
    assert!(!should_autoleave(AutoLeaveMode::Disabled, Some(0)));
}
