//! The decisions of the interactive command-line client: how a typed line
//! becomes a command for the manager, and how a response text is shown.
use vstd::prelude::*;

use crate::message::backend::backend_to_manager::{
    BackendCommand, BackendRegistration, BackendToManagerMessage,
};
use crate::message::backend::backend_type::BackendType;
use crate::message::common::{MessageEnvelope, PROTOCOL_VERSION};
use crate::message::node::manager_to_node::{InstallPot, NodeCommandType, Unit};
use crate::text::{
    chars_of, concat, find_chars_from, find_first, parse_u64, parsed_u64, same_text, split_whitespace,
    starts_with, string_from_range, texts, trim, trimmed, words,
};

verus! {

pub struct HoneybeeCliClient {
    pub server_address: String,
}

/// What the client does with a line typed at its prompt.
pub enum CliAction {
    /// Nothing was typed.
    Skip,
    /// `exit` or `quit`.
    Exit,
    /// `help` or `?`: show the list of commands.
    Help,
    /// A command was given too few arguments: show how it is used.
    Usage { usage: String, example: String },
    /// The node id is not a number.
    InvalidNodeId,
    /// The command is not known.
    Unknown,
    /// Send this command to the manager.
    Send(BackendCommand),
}

/// The commands that act on one honeypot of a node: `<name> <node_id> <pot_id>`.
pub open spec fn pot_command(name: Seq<char>, pot_id: String) -> Option<NodeCommandType> {
    if name == "DeployPot"@ {
        Some(NodeCommandType::DeployPot(pot_id))
    } else if name == "StopPot"@ {
        Some(NodeCommandType::StopPot(pot_id))
    } else if name == "RestartPot"@ {
        Some(NodeCommandType::RestartPot(pot_id))
    } else if name == "GetPotStatus"@ {
        Some(NodeCommandType::GetPotStatus(pot_id))
    } else {
        None
    }
}

/// Whether `name` is one of the commands that act on one honeypot.
pub open spec fn is_pot_command(name: Seq<char>) -> bool {
    name == "DeployPot"@ || name == "StopPot"@ || name == "RestartPot"@ || name == "GetPotStatus"@
}

/// The lines on which the client stops with a panic: `GetInstalledPots`
/// without a node id, or with one that is not a number.
pub open spec fn line_panics(w: Seq<Seq<char>>) -> bool {
    w.len() > 0 && w[0] == "GetInstalledPots"@ && (w.len() < 2 || parsed_u64(w[1]) is None)
}

/// Whether `r` is the usage text of the named command.
pub open spec fn usage_of(name: Seq<char>, r: CliAction) -> bool {
    r matches CliAction::Usage { usage, example } && if name == "InstallPot"@ {
        usage@ == "Usage: InstallPot <node_id> <pot_id> <honeypot_type>"@
            && example@ == "Example: InstallPot 8108114413124017714 cowrie-01 cowrie"@
    } else {
        usage@ == "Usage: "@ + name + " <node_id> <pot_id>"@ && example@ == "Example: "@ + name
            + " 8108114413124017714 cowrie-01"@
    }
}

/// How the client answers the words of a line.
pub open spec fn cli_action(w: Seq<Seq<char>>, r: CliAction) -> bool {
    if w.len() == 0 {
        r is Skip
    } else if w[0] == "exit"@ || w[0] == "quit"@ {
        r is Exit
    } else if w[0] == "list"@ {
        r matches CliAction::Send(BackendCommand::GetNodes)
    } else if w[0] == "GetInstalledPots"@ {
        r matches CliAction::Send(BackendCommand::NodeCommand { node_id, command: NodeCommandType::GetInstalledPots(_) })
            && Some(node_id) == parsed_u64(w[1])
    } else if w[0] == "InstallPot"@ {
        if w.len() < 4 {
            usage_of(w[0], r)
        } else if parsed_u64(w[1]) is None {
            r is InvalidNodeId
        } else {
            r matches CliAction::Send(BackendCommand::NodeCommand { node_id, command: NodeCommandType::InstallPot(p) })
                && Some(node_id) == parsed_u64(w[1]) && p.pot_id@ == w[2] && p.honeypot_type@ == w[3]
                && p.git_url is None && p.git_branch is None && p.config is None && p.auto_start
        }
    } else if is_pot_command(w[0]) {
        if w.len() < 3 {
            usage_of(w[0], r)
        } else if parsed_u64(w[1]) is None {
            r is InvalidNodeId
        } else {
            r matches CliAction::Send(BackendCommand::NodeCommand { node_id, command }) && Some(node_id)
                == parsed_u64(w[1]) && exists|p: String| p@ == w[2] && pot_command(w[0], p) == Some(command)
        }
    } else if w[0] == "help"@ || w[0] == "?"@ {
        r is Help
    } else {
        r is Unknown
    }
}

/// What the client shows of the text of a response.
pub enum ResponseLine {
    /// The description of an alarm.
    Alarm(String),
    /// The message of an error.
    Warning(String),
    /// The text as it is.
    Plain(String),
    /// Nothing: the text looks like an alarm or an error but its field could
    /// not be found.
    Nothing,
}

/// The text between `key` and the closing `" }` that follows it in `s`:
/// `None` when either is missing, else the start and end of that text.
pub open spec fn field_bounds(s: Seq<char>, key: Seq<char>) -> Option<(int, int)> {
    match find_first(s, key) {
        None => None,
        Some(a) => match find_first(s.skip(a), "\" }"@) {
            None => None,
            Some(e) => Some((a + key.len(), a + e)),
        },
    }
}

/// The texts on which showing a response stops with a panic: the closing
/// `" }` comes right after the key's opening quote, so the field would end
/// before it starts.
pub open spec fn display_panics(s: Seq<char>) -> bool {
    if "Alarm { description:"@.is_prefix_of(s) {
        field_bounds(s, "description: \""@) matches Some((a, b)) && b < a
    } else if "Error { message:"@.is_prefix_of(s) {
        field_bounds(s, "message: \""@) matches Some((a, b)) && b < a
    } else {
        false
    }
}

/// What is shown of a response text.
pub open spec fn response_line(s: Seq<char>, r: ResponseLine) -> bool {
    if "Alarm { description:"@.is_prefix_of(s) {
        match field_bounds(s, "description: \""@) {
            None => r is Nothing,
            Some((a, b)) => r matches ResponseLine::Alarm(t) && t@ == s.subrange(a, b),
        }
    } else if "Error { message:"@.is_prefix_of(s) {
        match field_bounds(s, "message: \""@) {
            None => r is Nothing,
            Some((a, b)) => r matches ResponseLine::Warning(t) && t@ == s.subrange(a, b),
        }
    } else {
        r matches ResponseLine::Plain(t) && t@ == s
    }
}

/// The text between `key` and the `" }` that follows it, or `None`.
fn extract_field(v: &Vec<char>, key: &str) -> (r: Option<String>)
    requires
        field_bounds(v@, key@) matches Some((a, b)) ==> a <= b,
    ensures
        match field_bounds(v@, key@) {
            None => r is None,
            Some((a, b)) => r matches Some(t) && t@ == v@.subrange(a, b),
        },
{
    let k = chars_of(key);
    let close = chars_of("\" }");
    match find_chars_from(v, &k, 0) {
        None => None,
        Some(a) => {
            proof {
                assert(find_first(v@, k@) == Some(a as int));
            }
            let rest = string_from_range(v, a, v.len());
            let restv = chars_of(rest.as_str());
            assert(restv@ == v@.skip(a as int));
            match find_chars_from(&restv, &close, 0) {
                None => None,
                Some(e) => {
                    assert(a + e <= v@.len()) by {
                        assert(e + close@.len() <= restv@.len());
                    }
                    Some(string_from_range(v, a + k.len(), a + e))
                },
            }
        },
    }
}

/// What is shown of the text of a response.
pub fn describe_response_text(response_str: &str) -> (r: ResponseLine)
    requires
        !display_panics(response_str@),
    ensures
        response_line(response_str@, r),
{
    let v = chars_of(response_str);
    if starts_with(&v, &chars_of("Alarm { description:")) {
        match extract_field(&v, "description: \"") {
            Some(t) => ResponseLine::Alarm(t),
            None => ResponseLine::Nothing,
        }
    } else if starts_with(&v, &chars_of("Error { message:")) {
        match extract_field(&v, "message: \"") {
            Some(t) => ResponseLine::Warning(t),
            None => ResponseLine::Nothing,
        }
    } else {
        ResponseLine::Plain(response_str.to_owned())
    }
}

/// What the data of a success response holds, as the client shows it.
pub enum ShownData {
    /// The data's `response` text, with the data's other fields
    /// pretty-printed as JSON when there are any.
    Response { text: String, details: Option<String> },
    /// Data without a `response` text, pretty-printed as JSON.
    Raw(String),
}

/// The lines shown for a response text: its alarm, its warning or the text
/// itself, or none when the field of an alarm or warning is not found.
pub open spec fn response_text_lines(s: Seq<char>) -> Seq<Seq<char>> {
    if "Alarm { description:"@.is_prefix_of(s) {
        match field_bounds(s, "description: \""@) {
            None => Seq::empty(),
            Some((a, b)) => seq!["   \u{1f4e2} "@ + s.subrange(a, b)],
        }
    } else if "Error { message:"@.is_prefix_of(s) {
        match field_bounds(s, "message: \""@) {
            None => Seq::empty(),
            Some((a, b)) => seq!["   \u{26a0}\u{fe0f}  "@ + s.subrange(a, b)],
        }
    } else {
        seq!["   Response: "@ + s]
    }
}

/// The lines shown under the header of a success response: its message,
/// then what its data holds.
pub open spec fn success_lines(message: Option<String>, data: Option<ShownData>) -> Seq<Seq<char>> {
    let head = match message {
        Some(m) => seq!["   "@ + m@],
        None => Seq::empty(),
    };
    head + match data {
        None => Seq::empty(),
        Some(ShownData::Raw(p)) => seq!["   "@ + p@],
        Some(ShownData::Response { text, details }) => response_text_lines(text@) + match details {
            Some(d) => seq!["   Details: "@ + d@],
            None => Seq::empty(),
        },
    }
}

/// The lines shown under the header of a success response.
pub fn display_success(message: Option<String>, data: Option<ShownData>) -> (lines: Vec<String>)
    requires
        data matches Some(ShownData::Response { text, .. }) ==> !display_panics(text@),
    ensures
        texts(lines@) == success_lines(message, data),
{
    let ghost m0 = message;
    let ghost d0 = data;
    let ghost head = match m0 {
        Some(m) => seq!["   "@ + m@],
        None => Seq::<Seq<char>>::empty(),
    };
    let mut lines: Vec<String> = Vec::new();
    match message {
        Some(m) => lines.push(concat("   ", m.as_str())),
        None => {},
    }
    assert(texts(lines@) =~= head);
    match data {
        None => {},
        Some(ShownData::Raw(p)) => {
            lines.push(concat("   ", p.as_str()));
        },
        Some(ShownData::Response { text, details }) => {
            let ghost before = texts(lines@);
            match describe_response_text(text.as_str()) {
                ResponseLine::Alarm(t) => lines.push(concat("   \u{1f4e2} ", t.as_str())),
                ResponseLine::Warning(t) => lines.push(concat("   \u{26a0}\u{fe0f}  ", t.as_str())),
                ResponseLine::Plain(t) => lines.push(concat("   Response: ", t.as_str())),
                ResponseLine::Nothing => {},
            }
            assert(texts(lines@) =~= before + response_text_lines(text@));
            let ghost middle = texts(lines@);
            let ghost details0 = details;
            let ghost tail = match details0 {
                Some(d) => seq!["   Details: "@ + d@],
                None => Seq::<Seq<char>>::empty(),
            };
            match details {
                Some(d) => lines.push(concat("   Details: ", d.as_str())),
                None => {},
            }
            assert(texts(lines@) =~= middle + tail);
        },
    }
    assert(texts(lines@) =~= success_lines(m0, d0));
    lines
}

/// The lines of a success response begin with its message, whatever its
/// data holds; with no data, the message is all that is shown.
pub proof fn law_message_shown_first(message: Option<String>, data: Option<ShownData>, lines: Seq<Seq<char>>)
    requires
        lines == success_lines(message, data),
    ensures
        message matches Some(m) ==> lines.len() >= 1 && lines[0] == "   "@ + m@,
        message is None && data is None ==> lines.len() == 0,
        data is None ==> lines.len() == (if message is Some { 1int } else { 0int }),
{
}

impl HoneybeeCliClient {
    pub fn new(server_address: String) -> (c: Self)
        ensures
            c.server_address == server_address,
    {
        Self { server_address }
    }

    /// The registration the client sends when it connects.
    pub fn registration_message() -> (m: BackendToManagerMessage)
        ensures
            m matches BackendToManagerMessage::BackendRegistration(reg) && reg.backend_name@
                == "Honeybee CLI Client"@ && reg.backend_type is Cli,
    {
        BackendToManagerMessage::BackendRegistration(
            BackendRegistration {
                backend_name: "Honeybee CLI Client".to_owned(),
                backend_type: BackendType::Cli,
            },
        )
    }

    /// The envelope in which a message is sent to the manager.
    pub fn envelope(message: BackendToManagerMessage) -> (e: MessageEnvelope<BackendToManagerMessage>)
        ensures
            e.version == PROTOCOL_VERSION,
            e.message == message,
    {
        MessageEnvelope::new(PROTOCOL_VERSION, message)
    }

    /// The envelope in which a command is sent to the manager.
    pub fn command_envelope(command: BackendCommand) -> (e: MessageEnvelope<BackendToManagerMessage>)
        ensures
            e.version == PROTOCOL_VERSION,
            e.message == BackendToManagerMessage::BackendCommand(command),
    {
        MessageEnvelope::new(PROTOCOL_VERSION, BackendToManagerMessage::BackendCommand(command))
    }

    /// What the client does with a line typed at its prompt.
    pub fn parse_line(line: &str) -> (r: CliAction)
        requires
            !line_panics(words(trimmed(line@))),
        ensures
            cli_action(words(trimmed(line@)), r),
    {
        let t = trim(line);
        if t.as_str().is_empty() {
            return CliAction::Skip;
        }
        let parts = split_whitespace(t.as_str());
        Self::parse_words(&parts)
    }

    /// What the client does with the words of a line.
    pub fn parse_words(parts: &Vec<String>) -> (r: CliAction)
        requires
            !line_panics(texts(parts@)),
        ensures
            cli_action(texts(parts@), r),
    {
        let ghost w = texts(parts@);
        if parts.len() == 0 {
            return CliAction::Skip;
        }
        assert(w[0] == parts@[0]@);
        let first = parts[0].as_str();
        if same_text(first, "exit") || same_text(first, "quit") {
            return CliAction::Exit;
        }
        if same_text(first, "list") {
            return CliAction::Send(BackendCommand::GetNodes);
        }
        if same_text(first, "GetInstalledPots") {
            assert(w[1] == parts@[1]@);
            let node_id = match parse_u64(parts[1].as_str()) {
                Some(id) => id,
                None => {
                    return CliAction::InvalidNodeId;
                },
            };
            return CliAction::Send(
                BackendCommand::NodeCommand { node_id, command: NodeCommandType::GetInstalledPots(Unit) },
            );
        }
        if same_text(first, "InstallPot") {
            if parts.len() < 4 {
                return CliAction::Usage {
                    usage: "Usage: InstallPot <node_id> <pot_id> <honeypot_type>".to_owned(),
                    example: "Example: InstallPot 8108114413124017714 cowrie-01 cowrie".to_owned(),
                };
            }
            assert(w[1] == parts@[1]@ && w[2] == parts@[2]@ && w[3] == parts@[3]@);
            let node_id = match parse_u64(parts[1].as_str()) {
                Some(id) => id,
                None => {
                    return CliAction::InvalidNodeId;
                },
            };
            return CliAction::Send(
                BackendCommand::NodeCommand {
                    node_id,
                    command: NodeCommandType::InstallPot(
                        InstallPot {
                            pot_id: parts[2].clone(),
                            honeypot_type: parts[3].clone(),
                            git_url: None,
                            git_branch: None,
                            config: None,
                            auto_start: true,
                        },
                    ),
                },
            );
        }
        let deploy = same_text(first, "DeployPot");
        let stop = same_text(first, "StopPot");
        let restart = same_text(first, "RestartPot");
        let status = same_text(first, "GetPotStatus");
        if deploy || stop || restart || status {
            if parts.len() < 3 {
                let usage = crate::text::concat("Usage: ", first);
                let example = crate::text::concat("Example: ", first);
                return CliAction::Usage {
                    usage: crate::text::concat(usage.as_str(), " <node_id> <pot_id>"),
                    example: crate::text::concat(example.as_str(), " 8108114413124017714 cowrie-01"),
                };
            }
            assert(w[1] == parts@[1]@ && w[2] == parts@[2]@);
            let node_id = match parse_u64(parts[1].as_str()) {
                Some(id) => id,
                None => {
                    return CliAction::InvalidNodeId;
                },
            };
            let pot_id = parts[2].clone();
            let command = if deploy {
                NodeCommandType::DeployPot(pot_id)
            } else if stop {
                NodeCommandType::StopPot(pot_id)
            } else if restart {
                NodeCommandType::RestartPot(pot_id)
            } else {
                NodeCommandType::GetPotStatus(pot_id)
            };
            return CliAction::Send(BackendCommand::NodeCommand { node_id, command });
        }
        if same_text(first, "help") || same_text(first, "?") {
            return CliAction::Help;
        }
        CliAction::Unknown
    }
}

} // verus!
