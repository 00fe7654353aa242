//! The command protocol: what a client may ask for, and how a text frame is
//! read as one of the commands or refused.

use vstd::prelude::*;
use vstd::string::*;

verus! {

/// A command as the contracts see it.
pub enum CommandModel {
    /// The user is still there.
    HeartBeat { uid: i32 },
    /// The user comes online on this connection.
    Login { uid: i32 },
    /// The user leaves.
    Logout { uid: i32 },
    /// A message for another user.
    Send { target: i32, content: Seq<char> },
    /// The recipient confirms a message.
    Acknowledge { msg_id: Seq<char> },
}

/// What a client may ask for.
#[derive(Debug)]
pub enum Command {
    /// The user is still there.
    HeartBeat { uid: i32 },
    /// The user comes online on this connection.
    Login { uid: i32 },
    /// The user leaves.
    Logout { uid: i32 },
    /// A message for another user.
    Send { target: i32, content: String },
    /// The recipient confirms a message.
    Acknowledge { msg_id: String },
}

impl View for Command {
    type V = CommandModel;

    open spec fn view(&self) -> CommandModel {
        match *self {
            Command::HeartBeat { uid } => CommandModel::HeartBeat { uid },
            Command::Login { uid } => CommandModel::Login { uid },
            Command::Logout { uid } => CommandModel::Logout { uid },
            Command::Send { target, content } => CommandModel::Send { target, content: content@ },
            Command::Acknowledge { msg_id } => CommandModel::Acknowledge { msg_id: msg_id@ },
        }
    }
}

/// The member `key` of the JSON object that `text` spells, where that
/// member is a string; `None` where `text` is no JSON document, spells no
/// object, has no such member, or has one that is no string.
pub uninterp spec fn json_text_member(text: Seq<char>, key: Seq<char>) -> Option<Seq<char>>;

/// The member `key` of the JSON object that `text` spells, where that
/// member is a whole number that a signed 64-bit integer holds; `None`
/// where `text` is no JSON document, spells no object, has no such member,
/// or has one that is no such number.
pub uninterp spec fn json_int_member(text: Seq<char>, key: Seq<char>) -> Option<i64>;

/// Reads `text` with `serde_json::from_str` as a `serde_json::Value`, looks
/// the member `key` up with `Value::get` and takes it with `Value::as_str`.
/// The contract gives what comes back a name: it is a function of the two
/// texts alone.
#[verifier::external_body]
fn text_member(text: &str, key: &str) -> (member: Option<String>)
    ensures
        text_model(member) == json_text_member(text@, key@),
{
    let document: serde_json::Value = serde_json::from_str(text).ok()?;
    document.get(key)?.as_str().map(String::from)
}

/// Reads `text` with `serde_json::from_str` as a `serde_json::Value`, looks
/// the member `key` up with `Value::get` and takes it with `Value::as_i64`.
/// The contract gives what comes back a name: it is a function of the two
/// texts alone.
#[verifier::external_body]
fn int_member(text: &str, key: &str) -> (member: Option<i64>)
    ensures
        member == json_int_member(text@, key@),
{
    let document: serde_json::Value = serde_json::from_str(text).ok()?;
    document.get(key)?.as_i64()
}

/// `value` as a user identity, where it is one.
pub open spec fn as_uid(value: Option<i64>) -> Option<i32> {
    match value {
        Some(v) if i32::MIN <= v <= i32::MAX => Some(v as i32),
        _ => None,
    }
}

/// The command that the members of a frame make up. The member `type`
/// names the command, and the members that this command needs must be
/// there, in their kind; members that it does not need are not looked at.
/// Every other frame is no command.
pub open spec fn command_of(
    kind: Option<Seq<char>>,
    uid: Option<i64>,
    target: Option<i64>,
    content: Option<Seq<char>>,
    msg_id: Option<Seq<char>>,
) -> Option<CommandModel> {
    match kind {
        None => None,
        Some(name) => {
            if name == "HeartBeat"@ {
                match as_uid(uid) {
                    Some(uid) => Some(CommandModel::HeartBeat { uid }),
                    None => None,
                }
            } else if name == "Login"@ {
                match as_uid(uid) {
                    Some(uid) => Some(CommandModel::Login { uid }),
                    None => None,
                }
            } else if name == "Logout"@ {
                match as_uid(uid) {
                    Some(uid) => Some(CommandModel::Logout { uid }),
                    None => None,
                }
            } else if name == "Send"@ {
                match (as_uid(target), content) {
                    (Some(target), Some(content)) => Some(CommandModel::Send { target, content }),
                    _ => None,
                }
            } else if name == "Acknowledge"@ {
                match msg_id {
                    Some(msg_id) => Some(CommandModel::Acknowledge { msg_id }),
                    None => None,
                }
            } else {
                None
            }
        },
    }
}

/// The command that the frame `text` spells, if it spells one.
pub open spec fn decoded(text: Seq<char>) -> Option<CommandModel> {
    command_of(
        json_text_member(text, "type"@),
        json_int_member(text, "uid"@),
        json_int_member(text, "target"@),
        json_text_member(text, "content"@),
        json_text_member(text, "msg_id"@),
    )
}

/// The model of a command that may be missing.
pub open spec fn command_model(command: Option<Command>) -> Option<CommandModel> {
    match command {
        Some(c) => Some(c@),
        None => None,
    }
}

/// The view of a text that may be missing.
pub open spec fn text_model(text: Option<String>) -> Option<Seq<char>> {
    match text {
        Some(s) => Some(s@),
        None => None,
    }
}

/// `value` as a user identity, where it is one.
pub fn uid_from(value: Option<i64>) -> (uid: Option<i32>)
    ensures
        uid == as_uid(value),
{
    match value {
        Some(v) => {
            if -2147483648 <= v && v <= 2147483647 {
                Some(v as i32)
            } else {
                None
            }
        },
        None => None,
    }
}

/// Whether `text` reads as `name`.
fn is_named(text: &String, name: &str) -> (same: bool)
    ensures
        same == (text@ == name@),
{
    let wanted = name.to_owned();
    *text == wanted
}

/// The command that the members of a frame make up, or `None` where they
/// make up none.
pub fn command_from_parts(
    kind: Option<String>,
    uid: Option<i64>,
    target: Option<i64>,
    content: Option<String>,
    msg_id: Option<String>,
) -> (command: Option<Command>)
    ensures
        command_model(command) == command_of(
            text_model(kind),
            uid,
            target,
            text_model(content),
            text_model(msg_id),
        ),
{
    let name = match kind {
        Some(name) => name,
        None => {
            return None;
        },
    };
    if is_named(&name, "HeartBeat") {
        match uid_from(uid) {
            Some(uid) => Some(Command::HeartBeat { uid }),
            None => None,
        }
    } else if is_named(&name, "Login") {
        match uid_from(uid) {
            Some(uid) => Some(Command::Login { uid }),
            None => None,
        }
    } else if is_named(&name, "Logout") {
        match uid_from(uid) {
            Some(uid) => Some(Command::Logout { uid }),
            None => None,
        }
    } else if is_named(&name, "Send") {
        match (uid_from(target), content) {
            (Some(target), Some(content)) => Some(Command::Send { target, content }),
            _ => None,
        }
    } else if is_named(&name, "Acknowledge") {
        match msg_id {
            Some(msg_id) => Some(Command::Acknowledge { msg_id }),
            None => None,
        }
    } else {
        None
    }
}

/// Reads a frame as a command. A frame that spells none is refused with
/// `None`; the connection that it came over is not touched by that.
pub fn decode(text: &str) -> (command: Option<Command>)
    ensures
        command_model(command) == decoded(text@),
{
    let kind = text_member(text, "type");
    let uid = int_member(text, "uid");
    let target = int_member(text, "target");
    let content = text_member(text, "content");
    let msg_id = text_member(text, "msg_id");
    command_from_parts(kind, uid, target, content, msg_id)
}

/// What a client is told when its frame spelt no command.
pub fn invalid_command_notice() -> (notice: &'static str)
    ensures
        notice@ == "invalid command"@,
{
    "invalid command"
}

} // verus!
