//! One session with the server: address check, handshake, group join, and
//! the messages that follow, as a small state machine.

use vstd::prelude::*;
use crate::protocol::{
    decodes, encode_handshake, encode_join, handled, handle_message, handshake_text, join_text,
    member, ProtocolError, Response,
};
use crate::text::str_eq;

verus! {

/// Whether the `url` crate accepts `s` as an absolute URL.
pub uninterp spec fn url_parses(s: Seq<char>) -> bool;

#[verifier::external_type_specification]
#[verifier::external_body]
pub struct ExUrl(url::Url);

#[verifier::external_type_specification]
#[verifier::external_body]
pub struct ExUrlParseError(url::ParseError);

/// Relies on `url::Url::parse`: whether it succeeds depends on `s` alone.
#[verifier::external_body]
fn parse_url(s: &str) -> (r: Result<url::Url, url::ParseError>)
    ensures
        r is Ok <==> url_parses(s@),
{
    url::Url::parse(s)
}

/// A lower-case hexadecimal digit.
pub open spec fn hex_digit(n: int) -> char {
    seq!['0', '1', '2', '3', '4', '5', '6', '7', '8', '9', 'a', 'b', 'c', 'd', 'e', 'f'][n]
}

/// The `i`-th of the 32 hexadecimal digits of `id`, most significant first.
pub open spec fn id_digit(id: u128, i: int) -> char {
    hex_digit((id as int / vstd::arithmetic::power::pow(16, (31 - i) as nat)) % 16)
}

/// `id` as 32 lower-case hexadecimal digits.
pub open spec fn id_hex(id: u128) -> Seq<char> {
    Seq::new(32, |i: int| id_digit(id, i))
}

/// The hyphenated form of a UUID: digit groups of 8, 4, 4, 4 and 12.
pub open spec fn id_text(id: u128) -> Seq<char> {
    let h = id_hex(id);
    h.subrange(0, 8) + seq!['-'] + h.subrange(8, 12) + seq!['-'] + h.subrange(12, 16) + seq!['-']
        + h.subrange(16, 20) + seq!['-'] + h.subrange(20, 32)
}

/// Relies on `uuid::Uuid::from_u128` and its hyphenated `Display`: the big
/// endian digits of `id` in lower-case hexadecimal, grouped by hyphens.
#[verifier::external_body]
fn uuid_text(id: u128) -> (r: String)
    ensures
        r@ == id_text(id),
{
    uuid::Uuid::from_u128(id).hyphenated().to_string()
}

/// Where a session stands.
#[derive(Clone, Copy, Debug, PartialEq, Eq, Structural)]
pub enum Phase {
    /// The address is known; the transport is not open yet.
    Opening,
    /// The handshake was sent; its reply is awaited.
    Handshaking,
    /// The join request was sent; server messages are being handled.
    Joined,
    /// An error ended the session.
    Closed,
}

/// Why a session could not be established.
#[derive(Clone, Copy, Debug, PartialEq, Eq, Structural)]
pub enum ConnectError {
    /// The server address is not a URL.
    InvalidAddress,
    /// The transport could not be opened or failed during the handshake.
    Transport,
    /// The server did not answer the handshake with a handshake.
    Handshake,
}

/// One logical connection to the server.
pub struct Session {
    pub url: url::Url,
    pub client_id: u128,
    pub group: String,
    pub username: String,
    pub password: String,
    pub phase: Phase,
}

/// Whether `reply` is a handshake record, the answer the server owes.
pub open spec fn handshake_accepted(reply: Seq<char>) -> bool {
    decodes(reply) && member(reply, "type"@) == "handshake"@
}

/// Checks the address and prepares a session; the caller then opens the
/// transport to `url` and calls `start_handshake`.
pub fn connect(server: &str, client_id: u128, group: &str, username: &str, password: &str) -> (r:
    Result<Session, ConnectError>)
    ensures
        r is Ok <==> url_parses(server@),
        match r {
            Ok(s) => s.phase == Phase::Opening && s.client_id == client_id && s.group@ == group@
                && s.username@ == username@ && s.password@ == password@,
            Err(e) => e == ConnectError::InvalidAddress,
        },
{
    match parse_url(server) {
        Ok(url) => Ok(
            Session {
                url,
                client_id,
                group: String::from_str(group),
                username: String::from_str(username),
                password: String::from_str(password),
                phase: Phase::Opening,
            },
        ),
        Err(_) => Err(ConnectError::InvalidAddress),
    }
}

impl Session {
    /// The transport is open: returns the handshake record to send.
    pub fn start_handshake(&mut self) -> (r: String)
        ensures
            r@ == handshake_text(id_text(old(self).client_id)),
            final(self).phase == Phase::Handshaking,
            final(self).client_id == old(self).client_id,
            final(self).group == old(self).group,
            final(self).username == old(self).username,
            final(self).password == old(self).password,
    {
        self.phase = Phase::Handshaking;
        let id = uuid_text(self.client_id);
        encode_handshake(id.as_str())
    }

    /// Checks the server's one reply to the handshake; where it is a
    /// handshake, returns the join request to send.
    pub fn finish_handshake(&mut self, reply: &str) -> (r: Result<String, ConnectError>)
        ensures
            r is Ok <==> handshake_accepted(reply@),
            match r {
                Ok(join) => join@ == join_text(
                    old(self).group@,
                    old(self).username@,
                    old(self).password@,
                ) && final(self).phase == Phase::Joined,
                Err(e) => e == ConnectError::Handshake && final(self).phase == Phase::Closed,
            },
            final(self).client_id == old(self).client_id,
            final(self).group == old(self).group,
            final(self).username == old(self).username,
            final(self).password == old(self).password,
    {
        let accepted = match crate::protocol::decode_message(reply) {
            Ok(m) => str_eq(m.msg_type.as_str(), "handshake"),
            Err(_) => false,
        };
        if accepted {
            self.phase = Phase::Joined;
            Ok(encode_join(self.group.as_str(), self.username.as_str(), self.password.as_str()))
        } else {
            self.phase = Phase::Closed;
            Err(ConnectError::Handshake)
        }
    }

    /// Handles one server message; an error closes the session.
    pub fn receive(&mut self, text: &str) -> (r: Result<Response, ProtocolError>)
        ensures
            handled(text@, r),
            final(self).phase == (if r is Ok { old(self).phase } else { Phase::Closed }),
            final(self).client_id == old(self).client_id,
            final(self).group == old(self).group,
            final(self).username == old(self).username,
            final(self).password == old(self).password,
    {
        let r = handle_message(text);
        if r.is_err() {
            self.phase = Phase::Closed;
        }
        r
    }
}

} // verus!
