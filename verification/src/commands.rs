//! Slash-command decisions: which handler a command name selects, how the
//! `/autoleave` payload is read, and the texts the bot replies with.

use vstd::prelude::*;

use crate::autoleave::{mode_from_name, AutoLeaveMode};
use crate::messages::{lookup_text, render, MessageCatalog};
use crate::text::same_text;

verus! {

/// The slash commands the bot offers.
#[derive(Clone, Copy, Debug, PartialEq, Eq, Structural)]
pub enum SlashCommand {
    Join,
    Leave,
    Start,
    Stop,
    Autoleave,
    Status,
    /// Any other name.
    Unknown,
}

/// The command that `name` selects.
pub open spec fn command_of(name: Seq<char>) -> SlashCommand {
    if name == "join"@ {
        SlashCommand::Join
    } else if name == "leave"@ {
        SlashCommand::Leave
    } else if name == "start"@ {
        SlashCommand::Start
    } else if name == "stop"@ {
        SlashCommand::Stop
    } else if name == "autoleave"@ {
        SlashCommand::Autoleave
    } else if name == "status"@ {
        SlashCommand::Status
    } else {
        SlashCommand::Unknown
    }
}

/// The command that the interaction name `name` selects.
pub fn route_command(name: &str) -> (r: SlashCommand)
    ensures
        r == command_of(name@),
{
    if same_text(name, "join") {
        SlashCommand::Join
    } else if same_text(name, "leave") {
        SlashCommand::Leave
    } else if same_text(name, "start") {
        SlashCommand::Start
    } else if same_text(name, "stop") {
        SlashCommand::Stop
    } else if same_text(name, "autoleave") {
        SlashCommand::Autoleave
    } else if same_text(name, "status") {
        SlashCommand::Status
    } else {
        SlashCommand::Unknown
    }
}

/// Why a command was refused.
#[derive(Clone, Copy, Debug, PartialEq, Eq, Structural)]
pub enum CommandError {
    /// The command came from outside a guild.
    NotInGuild,
    /// The guild's data is not cached yet.
    GuildNotCached,
    /// The caller is in no voice channel.
    NotInVoiceChannel,
    /// `/autoleave` came without a subcommand.
    MissingSubcommand,
    /// `/autoleave set` named no known mode.
    InvalidMode,
    /// `/autoleave set` came with a payload that is not a subcommand's.
    InvalidSubcommandPayload,
    /// `/autoleave` came with a subcommand other than `set` and `status`.
    UnknownSubcommand,
}

/// The text of a command error.
pub open spec fn command_error_text(e: CommandError) -> Seq<char> {
    match e {
        CommandError::NotInGuild => "this command only works in a server"@,
        CommandError::GuildNotCached => "guild data is not in cache yet"@,
        CommandError::NotInVoiceChannel => "you must be in a voice channel first"@,
        CommandError::MissingSubcommand => "missing subcommand; use set or status"@,
        CommandError::InvalidMode => "invalid mode"@,
        CommandError::InvalidSubcommandPayload => "invalid subcommand payload"@,
        CommandError::UnknownSubcommand => "unknown autoleave subcommand"@,
    }
}

impl CommandError {
    /// The text that reports this error.
    pub fn message(&self) -> (r: &'static str)
        ensures
            r@ == command_error_text(*self),
    {
        match self {
            CommandError::NotInGuild => "this command only works in a server",
            CommandError::GuildNotCached => "guild data is not in cache yet",
            CommandError::NotInVoiceChannel => "you must be in a voice channel first",
            CommandError::MissingSubcommand => "missing subcommand; use set or status",
            CommandError::InvalidMode => "invalid mode",
            CommandError::InvalidSubcommandPayload => "invalid subcommand payload",
            CommandError::UnknownSubcommand => "unknown autoleave subcommand",
        }
    }
}

/// The reply to a command and whether only the caller sees it: a handler's
/// text is shown to all, a failure is reported to the caller alone through
/// the `command_error` template.
pub fn command_reply(catalog: &MessageCatalog, outcome: Result<String, String>) -> (r: (
    String,
    bool,
))
    ensures
        match outcome {
            Ok(content) => r.0@ == content@ && !r.1,
            Err(error) => r.0@ == render(
                lookup_text(catalog@, "command_error"@),
                seq![("error"@, error@)],
            ) && r.1,
        },
{
    match outcome {
        Ok(content) => (content, false),
        Err(error) => {
            let vars: [(&str, &str); 1] = [("error", error.as_str())];
            let text = catalog.tr("command_error", &vars);
            assert(crate::messages::vars_view(vars@) =~= seq![("error"@, error@)]);
            (text, true)
        },
    }
}

/// One option of a command payload: its name and, when its value is a
/// string, that string.
pub struct CommandOption {
    pub name: String,
    pub text: Option<String>,
}

/// The first subcommand of an `/autoleave` payload: its name and, when its
/// value is a subcommand's, the options it carries.
pub struct Subcommand {
    pub name: String,
    pub options: Option<Vec<CommandOption>>,
}

/// What an `/autoleave` command asks for.
#[derive(Clone, Copy, Debug, PartialEq, Eq, Structural)]
pub enum AutoLeaveRequest {
    /// Set the guild's mode.
    SetMode(AutoLeaveMode),
    /// Report the guild's mode.
    Status,
}

/// The first option named `name`, if any.
pub open spec fn first_option_named(options: Seq<CommandOption>, name: Seq<char>) -> Option<
    CommandOption,
>
    decreases options.len(),
{
    if options.len() == 0 {
        None
    } else if options[0].name@ == name {
        Some(options[0])
    } else {
        first_option_named(options.drop_first(), name)
    }
}

/// The mode that the `mode` option of a `set` payload selects, or why there
/// is none.
pub open spec fn mode_option(options: Seq<CommandOption>) -> Result<AutoLeaveMode, CommandError> {
    match first_option_named(options, "mode"@) {
        Some(o) => match o.text {
            Some(t) => match mode_from_name(t@) {
                Some(m) => Ok(m),
                None => Err(CommandError::InvalidMode),
            },
            None => Err(CommandError::InvalidMode),
        },
        None => Err(CommandError::InvalidMode),
    }
}

/// What an `/autoleave` payload asks for, or why it is refused.
pub open spec fn autoleave_request_of(sub: Option<Subcommand>) -> Result<
    AutoLeaveRequest,
    CommandError,
> {
    match sub {
        None => Err(CommandError::MissingSubcommand),
        Some(s) => if s.name@ == "set"@ {
            match s.options {
                Some(opts) => match mode_option(opts@) {
                    Ok(m) => Ok(AutoLeaveRequest::SetMode(m)),
                    Err(e) => Err(e),
                },
                None => Err(CommandError::InvalidSubcommandPayload),
            }
        } else if s.name@ == "status"@ {
            Ok(AutoLeaveRequest::Status)
        } else {
            Err(CommandError::UnknownSubcommand)
        },
    }
}

/// The mode that the first `mode` option selects.
fn read_mode_option(options: &Vec<CommandOption>) -> (r: Result<AutoLeaveMode, CommandError>)
    ensures
        r == mode_option(options@),
{
    let mut i: usize = 0;
    assert(options@.skip(0) == options@);
    while i < options.len()
        invariant
            i <= options.len(),
            first_option_named(options@, "mode"@) == first_option_named(
                options@.skip(i as int),
                "mode"@,
            ),
        decreases options.len() - i,
    {
        assert(options@.skip(i as int)[0] == options@[i as int]);
        if same_text(options[i].name.as_str(), "mode") {
            return match &options[i].text {
                Some(t) => match AutoLeaveMode::from_option(t.as_str()) {
                    Some(m) => Ok(m),
                    None => Err(CommandError::InvalidMode),
                },
                None => Err(CommandError::InvalidMode),
            };
        }
        assert(options@.skip(i as int).drop_first() == options@.skip(i + 1));
        i = i + 1;
    }
    Err(CommandError::InvalidMode)
}

/// What an `/autoleave` command asks for, from its first subcommand.
pub fn parse_autoleave_request(subcommand: Option<&Subcommand>) -> (r: Result<
    AutoLeaveRequest,
    CommandError,
>)
    ensures
        r == autoleave_request_of(
            match subcommand {
                Some(s) => Some(*s),
                None => None,
            },
        ),
{
    match subcommand {
        None => Err(CommandError::MissingSubcommand),
        Some(s) => {
            if same_text(s.name.as_str(), "set") {
                match &s.options {
                    Some(opts) => match read_mode_option(opts) {
                        Ok(m) => Ok(AutoLeaveRequest::SetMode(m)),
                        Err(e) => Err(e),
                    },
                    None => Err(CommandError::InvalidSubcommandPayload),
                }
            } else if same_text(s.name.as_str(), "status") {
                Ok(AutoLeaveRequest::Status)
            } else {
                Err(CommandError::UnknownSubcommand)
            }
        },
    }
}

/// The template key naming a mode in replies.
pub open spec fn mode_label_key(mode: AutoLeaveMode) -> Seq<char> {
    match mode {
        AutoLeaveMode::Disabled => "autoleave_mode_disabled"@,
        AutoLeaveMode::WhenNoHumans => "autoleave_mode_when_no_humans"@,
    }
}

/// The template key confirming that a mode was set.
pub open spec fn mode_set_key(mode: AutoLeaveMode) -> Seq<char> {
    match mode {
        AutoLeaveMode::Disabled => "autoleave_set_disabled"@,
        AutoLeaveMode::WhenNoHumans => "autoleave_set_when_no_humans"@,
    }
}

/// The localized name of a mode.
pub fn localized_autoleave_mode(catalog: &MessageCatalog, mode: AutoLeaveMode) -> (r: String)
    ensures
        r@ == lookup_text(catalog@, mode_label_key(mode)),
{
    match mode {
        AutoLeaveMode::Disabled => catalog.t("autoleave_mode_disabled"),
        AutoLeaveMode::WhenNoHumans => catalog.t("autoleave_mode_when_no_humans"),
    }
}

/// The reply confirming that the guild's mode is now `mode`.
pub fn autoleave_set_reply(catalog: &MessageCatalog, mode: AutoLeaveMode) -> (r: String)
    ensures
        r@ == lookup_text(catalog@, mode_set_key(mode)),
{
    match mode {
        AutoLeaveMode::Disabled => catalog.t("autoleave_set_disabled"),
        AutoLeaveMode::WhenNoHumans => catalog.t("autoleave_set_when_no_humans"),
    }
}

/// The reply reporting that the guild's mode is `mode`.
pub fn autoleave_status_reply(catalog: &MessageCatalog, mode: AutoLeaveMode) -> (r: String)
    ensures
        r@ == render(
            lookup_text(catalog@, "autoleave_status"@),
            seq![("mode"@, lookup_text(catalog@, mode_label_key(mode)))],
        ),
{
    let label = localized_autoleave_mode(catalog, mode);
    let vars: [(&str, &str); 1] = [("mode", label.as_str())];
    let text = catalog.tr("autoleave_status", &vars);
    assert(crate::messages::vars_view(vars@) =~= seq![
        ("mode"@, lookup_text(catalog@, mode_label_key(mode))),
    ]);
    text
}

/// The template key describing whether the guild streams.
pub open spec fn streaming_key(active: bool) -> Seq<char> {
    if active {
        "status_streaming_active"@
    } else {
        "status_streaming_inactive"@
    }
}

/// The `/status` reply: whether the guild streams and its autoleave mode.
pub fn status_reply(catalog: &MessageCatalog, streaming_active: bool, mode: AutoLeaveMode) -> (r:
    String)
    ensures
        r@ == render(
            lookup_text(catalog@, "status_summary"@),
            seq![
                ("streaming"@, lookup_text(catalog@, streaming_key(streaming_active))),
                ("autoleave"@, lookup_text(catalog@, mode_label_key(mode))),
            ],
        ),
{
    let streaming_text = if streaming_active {
        catalog.t("status_streaming_active")
    } else {
        catalog.t("status_streaming_inactive")
    };
    let autoleave_text = localized_autoleave_mode(catalog, mode);
    let vars: [(&str, &str); 2] = [
        ("streaming", streaming_text.as_str()),
        ("autoleave", autoleave_text.as_str()),
    ];
    let text = catalog.tr("status_summary", &vars);
    assert(crate::messages::vars_view(vars@) =~= seq![
        ("streaming"@, lookup_text(catalog@, streaming_key(streaming_active))),
        ("autoleave"@, lookup_text(catalog@, mode_label_key(mode))),
    ]);
    text
}

/// The `/stop` reply, given whether a track was playing and was stopped.
pub fn stop_reply(catalog: &MessageCatalog, had_track: bool) -> (r: String)
    ensures
        r@ == lookup_text(
            catalog@,
            if had_track {
                "stop_success"@
            } else {
                "stop_already_stopped"@
            },
        ),
{
    if had_track {
        catalog.t("stop_success")
    } else {
        catalog.t("stop_already_stopped")
    }
}

/// The `mode` option of `/autoleave set`.
pub struct ModeOptionSpec {
    pub name: String,
    pub description: String,
    pub required: bool,
    /// Each choice's label and the mode it selects; the value sent is the
    /// mode's option name.
    pub choices: Vec<(String, AutoLeaveMode)>,
}

/// A subcommand of a slash command.
pub struct SubcommandSpec {
    pub name: String,
    pub description: String,
    pub mode_option: Option<ModeOptionSpec>,
}

/// A slash command that the bot registers.
pub struct CommandSpec {
    pub name: String,
    pub description: String,
    pub subcommands: Vec<SubcommandSpec>,
}

/// The names of the registered commands, in order.
pub open spec fn command_names() -> Seq<Seq<char>> {
    seq!["join"@, "leave"@, "start"@, "stop"@, "autoleave"@, "status"@]
}

/// The descriptions of the registered commands, in order.
pub open spec fn command_descriptions() -> Seq<Seq<char>> {
    seq![
        "Join your current voice channel"@,
        "Leave voice and stop streaming"@,
        "Enable sending already-listening input to Discord"@,
        "Stop the active audio stream"@,
        "Configure auto-leave behavior"@,
        "Show stream status"@,
    ]
}

/// `spec` is the `/autoleave set` subcommand: a required `mode` option whose
/// choices select `Disabled` and `WhenNoHumans`.
pub open spec fn is_autoleave_set_spec(spec: SubcommandSpec) -> bool {
    &&& spec.name@ == "set"@
    &&& spec.description@ == "Set auto-leave mode for this server"@
    &&& spec.mode_option matches Some(o) && {
        &&& o.name@ == "mode"@
        &&& o.description@ == "Auto-leave mode"@
        &&& o.required
        &&& o.choices@.len() == 2
        &&& o.choices@[0].0@ == "Do not auto-leave"@
        &&& o.choices@[0].1 == AutoLeaveMode::Disabled
        &&& o.choices@[1].0@ == "Leave when no humans remain"@
        &&& o.choices@[1].1 == AutoLeaveMode::WhenNoHumans
    }
}

/// `spec` is the `/autoleave status` subcommand, which takes no option.
pub open spec fn is_autoleave_status_spec(spec: SubcommandSpec) -> bool {
    &&& spec.name@ == "status"@
    &&& spec.description@ == "Show current auto-leave mode for this server"@
    &&& spec.mode_option is None
}

fn plain_command(name: &str, description: &str) -> (r: CommandSpec)
    ensures
        r.name@ == name@,
        r.description@ == description@,
        r.subcommands@.len() == 0,
{
    CommandSpec { name: name.to_owned(), description: description.to_owned(), subcommands: Vec::new() }
}

/// The slash commands the bot registers: `join`, `leave`, `start`, `stop`,
/// `autoleave` (with `set`, taking a required `mode`, and `status`) and
/// `status`; each name routes to its own handler.
pub fn slash_command_specs() -> (r: Vec<CommandSpec>)
    ensures
        r@.len() == 6,
        forall|i: int| 0 <= i < 6 ==> (#[trigger] r@[i]).name@ == command_names()[i],
        forall|i: int| 0 <= i < 6 ==> (#[trigger] r@[i]).description@ == command_descriptions()[i],
        forall|i: int| 0 <= i < r@.len() ==> command_of(#[trigger] r@[i].name@) != SlashCommand::Unknown,
        forall|i: int| 0 <= i < 6 && i != 4 ==> (#[trigger] r@[i]).subcommands@.len() == 0,
        r@[4].subcommands@.len() == 2,
        is_autoleave_set_spec(r@[4].subcommands@[0]),
        is_autoleave_status_spec(r@[4].subcommands@[1]),
        r@[4].subcommands@[0].mode_option matches Some(o) && forall|i: int|
            0 <= i < o.choices@.len() ==> (#[trigger] o.choices@[i]).0@ == (if o.choices@[i].1
                == AutoLeaveMode::Disabled {
                "Do not auto-leave"@
            } else {
                "Leave when no humans remain"@
            }),
{
    let mut choices: Vec<(String, AutoLeaveMode)> = Vec::new();
    choices.push(("Do not auto-leave".to_owned(), AutoLeaveMode::Disabled));
    choices.push(("Leave when no humans remain".to_owned(), AutoLeaveMode::WhenNoHumans));
    let set = SubcommandSpec {
        name: "set".to_owned(),
        description: "Set auto-leave mode for this server".to_owned(),
        mode_option: Some(
            ModeOptionSpec {
                name: "mode".to_owned(),
                description: "Auto-leave mode".to_owned(),
                required: true,
                choices,
            },
        ),
    };
    let status = SubcommandSpec {
        name: "status".to_owned(),
        description: "Show current auto-leave mode for this server".to_owned(),
        mode_option: None,
    };
    let mut subcommands: Vec<SubcommandSpec> = Vec::new();
    subcommands.push(set);
    subcommands.push(status);
    let mut r: Vec<CommandSpec> = Vec::new();
    r.push(plain_command("join", "Join your current voice channel"));
    r.push(plain_command("leave", "Leave voice and stop streaming"));
    r.push(plain_command("start", "Enable sending already-listening input to Discord"));
    r.push(plain_command("stop", "Stop the active audio stream"));
    r.push(
        CommandSpec {
            name: "autoleave".to_owned(),
            description: "Configure auto-leave behavior".to_owned(),
            subcommands,
        },
    );
    r.push(plain_command("status", "Show stream status"));
    proof {
        reveal_strlit("join");
        reveal_strlit("leave");
        reveal_strlit("start");
        reveal_strlit("stop");
        reveal_strlit("autoleave");
        reveal_strlit("status");
        assert forall|i: int| 0 <= i < r@.len() implies command_of(#[trigger] r@[i].name@)
            != SlashCommand::Unknown by {
            assert(r@[i].name@ == command_names()[i]);
        }
    }
    r
}

proof fn lemma_first_option_named(options: Seq<CommandOption>, name: Seq<char>, i: int)
    requires
        0 <= i < options.len(),
        options[i].name@ == name,
        forall|j: int| 0 <= j < i ==> (#[trigger] options[j]).name@ != name,
    ensures
        first_option_named(options, name) == Some(options[i]),
    decreases i,
{
    if i > 0 {
        let rest = options.drop_first();
        assert forall|j: int| 0 <= j < i - 1 implies (#[trigger] rest[j]).name@ != name by {
            assert(rest[j] == options[j + 1]);
        }
        lemma_first_option_named(rest, name, i - 1);
        assert(options[0].name@ != name);
    }
}

/// `/autoleave set` selects the mode that the first option named `mode`
/// spells, `disabled` or `when_no_humans`, whatever other options stand
/// around it.
pub proof fn law_set_selects_spelled_mode(s: Subcommand, options: Seq<CommandOption>, i: int, t: String)
    requires
        s.name@ == "set"@,
        s.options matches Some(o) && o@ == options,
        0 <= i < options.len(),
        options[i].name@ == "mode"@,
        forall|j: int| 0 <= j < i ==> (#[trigger] options[j]).name@ != "mode"@,
        options[i].text == Some(t),
    ensures
        t@ == "disabled"@ ==> mode_option(options) == Ok::<AutoLeaveMode, CommandError>(AutoLeaveMode::Disabled)
            && autoleave_request_of(Some(s)) == Ok::<AutoLeaveRequest, CommandError>(AutoLeaveRequest::SetMode(AutoLeaveMode::Disabled)),
        t@ == "when_no_humans"@ ==> mode_option(options) == Ok::<AutoLeaveMode, CommandError>(AutoLeaveMode::WhenNoHumans)
            && autoleave_request_of(Some(s)) == Ok::<AutoLeaveRequest, CommandError>(
            AutoLeaveRequest::SetMode(AutoLeaveMode::WhenNoHumans),
        ),
{
    lemma_first_option_named(options, "mode"@, i);
    reveal_strlit("disabled");
    reveal_strlit("when_no_humans");
    assert(("disabled"@).len() != ("when_no_humans"@).len());
}

/// Every choice of the registered `mode` option is labelled as the bot
/// describes its mode: `disabled` as "Do not auto-leave" and
/// `when_no_humans` as "Leave when no humans remain", and both modes are
/// offered.
pub proof fn law_mode_choice_labels(spec: SubcommandSpec)
    requires
        is_autoleave_set_spec(spec),
    ensures
        spec.mode_option matches Some(o) && {
            &&& forall|i: int|
                0 <= i < o.choices@.len() && (#[trigger] o.choices@[i]).1 == AutoLeaveMode::Disabled
                    ==> o.choices@[i].0@ == "Do not auto-leave"@
            &&& forall|i: int|
                0 <= i < o.choices@.len() && (#[trigger] o.choices@[i]).1 == AutoLeaveMode::WhenNoHumans
                    ==> o.choices@[i].0@ == "Leave when no humans remain"@
            &&& exists|i: int| 0 <= i < o.choices@.len() && (#[trigger] o.choices@[i]).1 == AutoLeaveMode::Disabled
            &&& exists|i: int|
                0 <= i < o.choices@.len() && (#[trigger] o.choices@[i]).1 == AutoLeaveMode::WhenNoHumans
        },
{
    let o = spec.mode_option->0;
    assert(o.choices@[0].1 == AutoLeaveMode::Disabled);
    assert(o.choices@[1].1 == AutoLeaveMode::WhenNoHumans);
}

} // verus!
