use nekostream::autoleave::AutoLeaveMode;
use nekostream::commands::{
    autoleave_set_reply, autoleave_status_reply, command_reply, localized_autoleave_mode,
    parse_autoleave_request, route_command, slash_command_specs, status_reply, stop_reply, AutoLeaveRequest,
    CommandError, CommandOption, SlashCommand, Subcommand,
};
use nekostream::messages::MessageCatalog;

fn en() -> MessageCatalog {
    MessageCatalog::from_templates(None, "en-US")
}

#[test]
fn routes_names() {
    assert_eq!(route_command("join"), SlashCommand::Join);
    assert_eq!(route_command("leave"), SlashCommand::Leave);
    assert_eq!(route_command("start"), SlashCommand::Start);
    assert_eq!(route_command("stop"), SlashCommand::Stop);
    assert_eq!(route_command("autoleave"), SlashCommand::Autoleave);
    assert_eq!(route_command("status"), SlashCommand::Status);
    assert_eq!(route_command("Join"), SlashCommand::Unknown);
}

#[test]
fn replies_and_errors() {
    let c = en();
    assert_eq!(command_reply(&c, Ok("done".to_string())), ("done".to_string(), false));
    assert_eq!(
        command_reply(&c, Err("boom".to_string())),
        ("Command failed: boom".to_string(), true)
    );
}

#[test]
fn error_texts() {
    assert_eq!(CommandError::NotInGuild.message(), "this command only works in a server");
    assert_eq!(CommandError::GuildNotCached.message(), "guild data is not in cache yet");
    assert_eq!(
        CommandError::NotInVoiceChannel.message(),
        "you must be in a voice channel first"
    );
    assert_eq!(
        CommandError::MissingSubcommand.message(),
        "missing subcommand; use set or status"
    );
    assert_eq!(CommandError::InvalidMode.message(), "invalid mode");
    assert_eq!(
        CommandError::InvalidSubcommandPayload.message(),
        "invalid subcommand payload"
    );
    assert_eq!(CommandError::UnknownSubcommand.message(), "unknown autoleave subcommand");
}

fn opt(name: &str, text: Option<&str>) -> CommandOption {
    CommandOption { name: name.to_string(), text: text.map(|s| s.to_string()) }
}

fn sub(name: &str, options: Option<Vec<CommandOption>>) -> Subcommand {
    Subcommand { name: name.to_string(), options }
}

#[test]
fn autoleave_requests() {
    assert_eq!(parse_autoleave_request(None), Err(CommandError::MissingSubcommand));
    let s = sub("set", Some(vec![opt("mode", Some("when_no_humans"))]));
    assert_eq!(
        parse_autoleave_request(Some(&s)),
        Ok(AutoLeaveRequest::SetMode(AutoLeaveMode::WhenNoHumans))
    );
    let s = sub("set", Some(vec![opt("other", Some("x")), opt("mode", Some("disabled"))]));
    assert_eq!(
        parse_autoleave_request(Some(&s)),
        Ok(AutoLeaveRequest::SetMode(AutoLeaveMode::Disabled))
    );
    let s = sub("set", Some(vec![opt("mode", None), opt("mode", Some("disabled"))]));
    assert_eq!(parse_autoleave_request(Some(&s)), Err(CommandError::InvalidMode));
    let s = sub("set", Some(vec![opt("mode", Some("always"))]));
    assert_eq!(parse_autoleave_request(Some(&s)), Err(CommandError::InvalidMode));
    let s = sub("set", Some(vec![]));
    assert_eq!(parse_autoleave_request(Some(&s)), Err(CommandError::InvalidMode));
    let s = sub("set", None);
    assert_eq!(parse_autoleave_request(Some(&s)), Err(CommandError::InvalidSubcommandPayload));
    let s = sub("status", None);
    assert_eq!(parse_autoleave_request(Some(&s)), Ok(AutoLeaveRequest::Status));
    let s = sub("reset", None);
    assert_eq!(parse_autoleave_request(Some(&s)), Err(CommandError::UnknownSubcommand));
}

#[test]
fn autoleave_reply_texts() {
    let c = en();
    assert_eq!(autoleave_set_reply(&c, AutoLeaveMode::Disabled), "Autoleave disabled.");
    assert_eq!(
        autoleave_set_reply(&c, AutoLeaveMode::WhenNoHumans),
        "Autoleave enabled (leave when no humans remain)."
    );
    assert_eq!(
        autoleave_status_reply(&c, AutoLeaveMode::WhenNoHumans),
        "Current autoleave mode: Leave when no humans remain"
    );
    assert_eq!(localized_autoleave_mode(&c, AutoLeaveMode::Disabled), "Disabled");
}

#[test]
fn status_texts() {
    let c = en();
    assert_eq!(
        status_reply(&c, true, AutoLeaveMode::Disabled),
        "Streaming: Active\nAutoleave: Disabled"
    );
    let zh = MessageCatalog::from_templates(None, "zh-TW");
    assert_eq!(
        status_reply(&zh, false, AutoLeaveMode::WhenNoHumans),
        "串流：未開始\n自動離開：無真人即離開"
    );
}

#[test]
fn stop_texts() {
    let c = en();
    assert_eq!(stop_reply(&c, true), "Streaming stopped.");
    assert_eq!(stop_reply(&c, false), "No active stream right now.");
}

#[test]
fn registered_commands() {
    let specs = slash_command_specs();
    let names: Vec<&str> = specs.iter().map(|c| c.name.as_str()).collect();
    assert_eq!(names, vec!["join", "leave", "start", "stop", "autoleave", "status"]);
    for c in &specs {
        assert_ne!(route_command(&c.name), SlashCommand::Unknown);
    }
    assert_eq!(specs[5].description, "Show stream status");
    let auto = &specs[4];
    assert_eq!(auto.subcommands.len(), 2);
    let set = &auto.subcommands[0];
    assert_eq!(set.name, "set");
    let mode = set.mode_option.as_ref().unwrap();
    assert_eq!(mode.name, "mode");
    assert!(mode.required);
    let values: Vec<&str> = mode.choices.iter().map(|(_, m)| m.as_str()).collect();
    assert_eq!(values, vec!["disabled", "when_no_humans"]);
    assert_eq!(mode.choices[0].0, "Do not auto-leave");
    assert_eq!(auto.subcommands[1].name, "status");
    assert!(auto.subcommands[1].mode_option.is_none());
}
