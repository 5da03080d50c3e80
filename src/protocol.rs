//! The server's wire protocol: decoding inbound records, deciding what each
//! one calls for, and encoding the client's own records.

use vstd::prelude::*;
use crate::controller::{chat_command, chat_lookup, ControlEvent};
use crate::text::str_eq;
use vstd::string::StringExecFns;

verus! {

/// What reading the top-level string member `key` of the JSON text `text`
/// gives: `None` where `text` is not a JSON document, `Some(None)` where it is
/// but has no string member of that name, `Some(Some(s))` otherwise.
pub uninterp spec fn json_string_member(text: Seq<char>, key: Seq<char>) -> Option<Option<Seq<char>>>;

/// What `serde_json` writes for `s` as a JSON string, quotes included.
pub uninterp spec fn json_quoted(s: Seq<char>) -> Seq<char>;

/// A character that JSON writes as itself inside a string.
pub open spec fn json_plain_char(c: char) -> bool {
    c != '"' && c != '\\' && (c as u32) >= 0x20
}

/// The characters of an optional string.
pub open spec fn option_string_view(o: Option<String>) -> Option<Seq<char>> {
    match o {
        Some(s) => Some(s@),
        None => None,
    }
}

#[verifier::external_type_specification]
#[verifier::external_body]
pub struct ExJsonError(serde_json::Error);

/// Relies on `serde_json::from_str` into a `serde_json::Value`, then
/// `Value::get` and `Value::as_str`: parses `text` and reads one string member.
#[verifier::external_body]
fn string_member(text: &str, key: &str) -> (r: Result<Option<String>, serde_json::Error>)
    ensures
        match r {
            Ok(o) => json_string_member(text@, key@) == Some(option_string_view(o)),
            Err(_) => json_string_member(text@, key@) is None,
        },
{
    let v: serde_json::Value = serde_json::from_str(text)?;
    Ok(v.get(key).and_then(|m| m.as_str()).map(|m| m.to_string()))
}

/// Relies on the `Display` of `serde_json::Value::String`: writes `s` as a
/// JSON string, escaping only quotes, backslashes and control characters.
#[verifier::external_body]
fn quote(s: &str) -> (r: String)
    ensures
        r@ == json_quoted(s@),
        (forall|i: int| 0 <= i < s@.len() ==> json_plain_char(#[trigger] s@[i])) ==> r@ == seq!['"']
            + s@ + seq!['"'],
{
    serde_json::Value::String(s.to_string()).to_string()
}

/// An inbound record, reduced to the three members the client reads. A
/// missing member, or one that is not a string, reads as empty.
#[derive(Clone, Debug)]
pub struct ServerMessage {
    pub msg_type: String,
    pub kind: String,
    pub value: String,
}

/// Why handling a server message failed.
#[derive(Clone, Debug)]
pub enum ProtocolError {
    /// The transport failed while reading or replying.
    Transport,
    /// The text is not a JSON record.
    Decode,
    /// The server reported an error; its text.
    Server(String),
    /// The server refused to let the client join the group.
    Join,
}

/// What the client does in answer to one server message.
#[derive(Clone, Copy, Debug, PartialEq, Eq, Structural)]
pub enum Response {
    /// Nothing to do.
    Idle,
    /// Reply with a pong record.
    Pong,
    /// Actuate a control.
    Press(ControlEvent),
}

pub open spec fn member_or_empty(o: Option<Seq<char>>) -> Seq<char> {
    match o {
        Some(s) => s,
        None => Seq::empty(),
    }
}

/// Whether `text` decodes: each member that the client reads could be looked
/// up in it.
pub open spec fn decodes(text: Seq<char>) -> bool {
    json_string_member(text, "type"@) is Some && json_string_member(text, "kind"@) is Some
        && json_string_member(text, "value"@) is Some
}

/// A member of a decodable text, empty where it is absent or not a string.
pub open spec fn member(text: Seq<char>, key: Seq<char>) -> Seq<char> {
    member_or_empty(json_string_member(text, key).unwrap())
}

/// What a record with these `type`, `kind` and `value` members calls for.
pub open spec fn dispatched(
    msg_type: Seq<char>,
    kind: Seq<char>,
    value: Seq<char>,
    r: Result<Response, ProtocolError>,
) -> bool {
    if msg_type == "ping"@ {
        r == Ok::<Response, ProtocolError>(Response::Pong)
    } else if msg_type == "usermessage"@ && kind == "error"@ {
        r matches Err(ProtocolError::Server(s)) && s@ == value
    } else if msg_type == "joined"@ && kind != "join"@ && kind != "change"@ {
        r == Err::<Response, ProtocolError>(ProtocolError::Join)
    } else if msg_type == "chat"@ {
        r == Ok::<Response, ProtocolError>(
            match chat_command(value) {
                Some(c) => Response::Press(c),
                None => Response::Idle,
            },
        )
    } else {
        r == Ok::<Response, ProtocolError>(Response::Idle)
    }
}

/// What handling the text `text` gives: a decode error where it is not a
/// record, else what its members call for.
pub open spec fn handled(text: Seq<char>, r: Result<Response, ProtocolError>) -> bool {
    if decodes(text) {
        dispatched(member(text, "type"@), member(text, "kind"@), member(text, "value"@), r)
    } else {
        r == Err::<Response, ProtocolError>(ProtocolError::Decode)
    }
}

fn member_text(text: &str, key: &str) -> (r: Result<String, ProtocolError>)
    ensures
        match r {
            Ok(s) => json_string_member(text@, key@) is Some && s@ == member(text@, key@),
            Err(e) => json_string_member(text@, key@) is None && e == ProtocolError::Decode,
        },
{
    match string_member(text, key) {
        Ok(Some(s)) => Ok(s),
        Ok(None) => Ok(String::new()),
        Err(_) => Err(ProtocolError::Decode),
    }
}

/// Decodes one inbound text frame.
pub fn decode_message(text: &str) -> (r: Result<ServerMessage, ProtocolError>)
    ensures
        r is Ok <==> decodes(text@),
        match r {
            Ok(m) => m.msg_type@ == member(text@, "type"@) && m.kind@ == member(text@, "kind"@)
                && m.value@ == member(text@, "value"@),
            Err(e) => e == ProtocolError::Decode,
        },
{
    let msg_type = member_text(text, "type")?;
    let kind = member_text(text, "kind")?;
    let value = member_text(text, "value")?;
    Ok(ServerMessage { msg_type, kind, value })
}

/// Decides what a decoded record calls for.
pub fn dispatch(msg: &ServerMessage) -> (r: Result<Response, ProtocolError>)
    ensures
        dispatched(msg.msg_type@, msg.kind@, msg.value@, r),
{
    let t = msg.msg_type.as_str();
    let k = msg.kind.as_str();
    if str_eq(t, "ping") {
        Ok(Response::Pong)
    } else if str_eq(t, "usermessage") && str_eq(k, "error") {
        Err(ProtocolError::Server(msg.value.clone()))
    } else if str_eq(t, "joined") && !str_eq(k, "join") && !str_eq(k, "change") {
        Err(ProtocolError::Join)
    } else if str_eq(t, "chat") {
        match chat_lookup(msg.value.as_str()) {
            Some(c) => Ok(Response::Press(c)),
            None => Ok(Response::Idle),
        }
    } else {
        Ok(Response::Idle)
    }
}

/// Handles one inbound text frame: decodes it and decides what it calls for.
pub fn handle_message(text: &str) -> (r: Result<Response, ProtocolError>)
    ensures
        handled(text@, r),
{
    let msg = decode_message(text)?;
    dispatch(&msg)
}

/// The record types the client tells apart are distinct words.
proof fn lemma_types_distinct()
    ensures
        "chat"@ != "ping"@,
        "chat"@ != "usermessage"@,
        "chat"@ != "joined"@,
        "joined"@ != "ping"@,
        "joined"@ != "usermessage"@,
        "usermessage"@ != "ping"@,
{
    reveal_strlit("chat");
    reveal_strlit("ping");
    reveal_strlit("usermessage");
    reveal_strlit("joined");
    assert("chat"@[0] != "ping"@[0]);
    assert("chat"@[0] != "usermessage"@[0]);
    assert("chat"@[0] != "joined"@[0]);
    assert("joined"@[0] != "ping"@[0]);
    assert("joined"@[0] != "usermessage"@[0]);
    assert("usermessage"@[0] != "ping"@[0]);
}

/// A chat message whose text is no command of the table actuates nothing,
/// and handling it succeeds.
pub proof fn lemma_unknown_chat_is_idle(text: Seq<char>, r: Result<Response, ProtocolError>)
    requires
        decodes(text),
        member(text, "type"@) == "chat"@,
        chat_command(member(text, "value"@)) is None,
        handled(text, r),
    ensures
        r == Ok::<Response, ProtocolError>(Response::Idle),
{
    lemma_types_distinct();
}

/// A ping is answered with exactly one pong and actuates nothing.
pub proof fn lemma_ping_is_answered(text: Seq<char>, r: Result<Response, ProtocolError>)
    requires
        decodes(text),
        member(text, "type"@) == "ping"@,
        handled(text, r),
    ensures
        r == Ok::<Response, ProtocolError>(Response::Pong),
{
}

/// A join confirmation or a group change succeeds with nothing to do; any
/// other kind of `joined` record is a join error.
pub proof fn lemma_joined(text: Seq<char>, r: Result<Response, ProtocolError>)
    requires
        decodes(text),
        member(text, "type"@) == "joined"@,
        handled(text, r),
    ensures
        member(text, "kind"@) == "join"@ || member(text, "kind"@) == "change"@ ==> r == Ok::<
            Response,
            ProtocolError,
        >(Response::Idle),
        member(text, "kind"@) != "join"@ && member(text, "kind"@) != "change"@ ==> r == Err::<
            Response,
            ProtocolError,
        >(ProtocolError::Join),
{
    lemma_types_distinct();
}

/// A server error report fails with the report's own text.
pub proof fn lemma_server_error(text: Seq<char>, r: Result<Response, ProtocolError>)
    requires
        decodes(text),
        member(text, "type"@) == "usermessage"@,
        member(text, "kind"@) == "error"@,
        handled(text, r),
    ensures
        r matches Err(ProtocolError::Server(s)) && s@ == member(text, "value"@),
{
    lemma_types_distinct();
}

/// The keep-alive answer to a ping.
pub open spec fn pong_text() -> Seq<char> {
    "{\"type\":\"pong\"}"@
}

/// The request to join `group` as `username` with `password`, members in
/// the order `serde_json` writes an object's keys.
pub open spec fn join_text(group: Seq<char>, username: Seq<char>, password: Seq<char>) -> Seq<char> {
    "{\"group\":"@ + json_quoted(group) + ",\"kind\":\"join\",\"password\":"@ + json_quoted(password)
        + ",\"type\":\"join\",\"username\":"@ + json_quoted(username) + "}"@
}

/// The opening record of a session for the client named `id`.
pub open spec fn handshake_text(id: Seq<char>) -> Seq<char> {
    "{\"id\":"@ + json_quoted(id) + ",\"type\":\"handshake\",\"version\":[\"1\"]}"@
}

/// Encodes the pong record.
pub fn encode_pong() -> (r: String)
    ensures
        r@ == pong_text(),
{
    String::from_str("{\"type\":\"pong\"}")
}

/// Encodes the join request.
pub fn encode_join(group: &str, username: &str, password: &str) -> (r: String)
    ensures
        r@ == join_text(group@, username@, password@),
{
    let mut out = String::from_str("{\"group\":");
    out.append(quote(group).as_str());
    out.append(",\"kind\":\"join\",\"password\":");
    out.append(quote(password).as_str());
    out.append(",\"type\":\"join\",\"username\":");
    out.append(quote(username).as_str());
    out.append("}");
    out
}

/// Encodes the handshake record.
pub fn encode_handshake(id: &str) -> (r: String)
    ensures
        r@ == handshake_text(id@),
{
    let mut out = String::from_str("{\"id\":");
    out.append(quote(id).as_str());
    out.append(",\"type\":\"handshake\",\"version\":[\"1\"]}");
    out
}

} // verus!
