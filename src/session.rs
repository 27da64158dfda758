use vstd::prelude::*;
use magic_crypt::MagicCryptTrait;
use crate::error::{GameError, Invalid, error_text};
use crate::game::WSResponse;

verus! {

/// How often the server probes a session, in milliseconds.
pub const HEARTBEAT_INTERVAL_MS: u64 = 5000;

/// How long a session may stay silent before it is closed, in milliseconds.
pub const CLIENT_TIMEOUT_MS: u64 = 10000;

/// A message from the player: the kind of request, the region, and the
/// request itself, still encoded.
pub struct WSRequest {
    pub kind: String,
    pub region: u32,
    pub payload: String,
}

/// The envelope a response travels in: its kind and its encoded body.
pub struct WSPayload {
    pub event_type: String,
    pub payload: String,
}

/// A request for the seed data of the player's level.
pub struct Seed {}

/// The kinds of request a session serves.
#[derive(Clone, Copy, Debug, PartialEq, Eq, Structural)]
pub enum RequestKind {
    Seed,
    Start,
    Control,
    Event,
    Save,
}

pub open spec fn kind_of(kind: Seq<char>) -> Option<RequestKind> {
    if kind == "Seed"@ {
        Some(RequestKind::Seed)
    } else if kind == "Start"@ {
        Some(RequestKind::Start)
    } else if kind == "Control"@ {
        Some(RequestKind::Control)
    } else if kind == "Event"@ {
        Some(RequestKind::Event)
    } else if kind == "Save"@ {
        Some(RequestKind::Save)
    } else {
        None
    }
}

/// The kind of request named `kind`; any other name is an invalid request.
pub fn dispatch(kind: &String) -> (r: Result<RequestKind, GameError>)
    ensures
        match kind_of(kind@) {
            Some(k) => r == Ok::<RequestKind, GameError>(k),
            None => r == Err::<RequestKind, GameError>(GameError::InvalidRequest(Invalid::UnknownKind)),
        },
{
    if *kind == "Seed".to_owned() {
        Ok(RequestKind::Seed)
    } else if *kind == "Start".to_owned() {
        Ok(RequestKind::Start)
    } else if *kind == "Control".to_owned() {
        Ok(RequestKind::Control)
    } else if *kind == "Event".to_owned() {
        Ok(RequestKind::Event)
    } else if *kind == "Save".to_owned() {
        Ok(RequestKind::Save)
    } else {
        Err(GameError::InvalidRequest(Invalid::UnknownKind))
    }
}

/// The response to send for the outcome of a request: the response itself,
/// or an error response with the error's message.
pub fn ws_response(res: Result<WSResponse, GameError>) -> (r: WSResponse)
    ensures
        match res {
            Ok(x) => r == x,
            Err(e) => r matches WSResponse::Error(m) && m@ == error_text(e),
        },
{
    match res {
        Ok(x) => x,
        Err(e) => WSResponse::Error(e.message()),
    }
}

pub open spec fn tag_of(r: WSResponse) -> Seq<char> {
    match r {
        WSResponse::Seed(_) => "Seed"@,
        WSResponse::Start(_) => "Start"@,
        WSResponse::Control(_) => "Control"@,
        WSResponse::Event(_) => "Event"@,
        WSResponse::EventParams(_) => "EventParams"@,
        WSResponse::Error(_) => "Error"@,
        WSResponse::Notice(_) => "Ok"@,
        WSResponse::Info(_) => "Info"@,
    }
}

impl WSResponse {
    /// The name the response's kind goes by on the wire.
    pub fn event_type(&self) -> (r: String)
        ensures
            r@ == tag_of(*self),
    {
        match self {
            WSResponse::Seed(_) => "Seed".to_owned(),
            WSResponse::Start(_) => "Start".to_owned(),
            WSResponse::Control(_) => "Control".to_owned(),
            WSResponse::Event(_) => "Event".to_owned(),
            WSResponse::EventParams(_) => "EventParams".to_owned(),
            WSResponse::Error(_) => "Error".to_owned(),
            WSResponse::Notice(_) => "Ok".to_owned(),
            WSResponse::Info(_) => "Info".to_owned(),
        }
    }

    /// The response as sent: its kind and its body, `body` being the body
    /// already encoded as JSON, carried as a JSON string.
    pub fn stringify(&self, body: &String) -> (r: Option<String>)
        ensures
            r matches Some(s) && s@ == envelope_text(tag_of(*self), json_quoted(body@)),
    {
        let tag = self.event_type();
        match json_string(body) {
            Some(quoted) => Some(envelope(&tag, &quoted)),
            None => None,
        }
    }
}

/// Lower-case hexadecimal digit for `n < 16`.
pub open spec fn hex_digit(n: u32) -> char {
    "0123456789abcdef"@[n as int]
}

/// How one character is written inside a JSON string: the quote and the
/// backslash behind a backslash, backspace, tab, line feed, form feed and
/// carriage return by their short escapes, other characters below U+0020
/// as `\u00` and two hexadecimal digits, and every other character as it is.
pub open spec fn escaped_char(c: char) -> Seq<char> {
    if c == '"' {
        seq!['\\', '"']
    } else if c == '\\' {
        seq!['\\', '\\']
    } else if c == '\u{08}' {
        seq!['\\', 'b']
    } else if c == '\t' {
        seq!['\\', 't']
    } else if c == '\n' {
        seq!['\\', 'n']
    } else if c == '\u{0c}' {
        seq!['\\', 'f']
    } else if c == '\r' {
        seq!['\\', 'r']
    } else if (c as u32) < 0x20 {
        seq!['\\', 'u', '0', '0', hex_digit((c as u32) / 16), hex_digit((c as u32) % 16)]
    } else {
        seq![c]
    }
}

/// The characters of `s`, each written as inside a JSON string.
pub open spec fn escaped(s: Seq<char>) -> Seq<char>
    decreases s.len(),
{
    if s.len() == 0 {
        Seq::empty()
    } else {
        escaped(s.drop_last()) + escaped_char(s.last())
    }
}

/// The JSON string literal for `s`.
pub open spec fn json_quoted(s: Seq<char>) -> Seq<char> {
    seq!['"'] + escaped(s) + seq!['"']
}

/// Relies on serde_json's `to_string` applied to a string, which writes it
/// as a quoted JSON string literal with the escapes of `escaped_char`, and
/// cannot fail since it writes into memory.
#[verifier::external_body]
pub(crate) fn json_string(s: &String) -> (r: Option<String>)
    ensures
        r is Some,
        r matches Some(j) ==> j@ == json_quoted(s@),
{
    serde_json::to_string(s).ok()
}

pub open spec fn envelope_text(event_type: Seq<char>, quoted_payload: Seq<char>) -> Seq<char> {
    "{\"event_type\":\""@ + event_type + "\",\"payload\":"@ + quoted_payload + "}"@
}

/// The JSON object with the fields `event_type`, holding the string
/// `event_type`, and `payload`, holding `quoted_payload`, which must already
/// be a JSON value.
pub fn envelope(event_type: &String, quoted_payload: &String) -> (r: String)
    ensures
        r@ == envelope_text(event_type@, quoted_payload@),
{
    let mut s = "{\"event_type\":\"".to_owned();
    s.append(event_type.as_str());
    s.append("\",\"payload\":");
    s.append(quoted_payload.as_str());
    s.append("}");
    s
}

/// What `key` makes of the base64 text `payload` under 256-bit AES, if it
/// decrypts to UTF-8 text.
pub uninterp spec fn decrypted(key: Seq<char>, payload: Seq<char>) -> Option<Seq<char>>;

/// Relies on magic-crypt's 256-bit cipher, made from `key` with no
/// initialisation vector, and its `decrypt_base64_to_string`: the plain text,
/// or an error.
#[verifier::external_body]
fn decrypt_base64(key: &String, payload: &String) -> (r: Option<String>)
    ensures
        match r {
            Some(t) => decrypted(key@, payload@) == Some(t@),
            None => decrypted(key@, payload@) is None,
        },
{
    magic_crypt::MagicCrypt256::new(key, None::<String>).decrypt_base64_to_string(payload).ok()
}

/// The request text inside an encrypted message.
pub fn decrypt_data(key: &String, payload: &String) -> (r: Result<String, String>)
    ensures
        match decrypted(key@, payload@) {
            Some(t) => r matches Ok(s) && s@ == t,
            None => r matches Err(m) && m@ == "Couldn't decrypt data"@,
        },
{
    match decrypt_base64(key, payload) {
        Some(t) => Ok(t),
        None => Err("Couldn't decrypt data".to_owned()),
    }
}

/// What the session does when its liveness is checked.
#[derive(Clone, Copy, Debug, PartialEq, Eq, Structural)]
pub enum Liveness {
    Ping,
    Stop,
}

/// A frame received on a session.
pub enum Frame {
    Ping(Vec<u8>),
    Pong,
    Text(String),
    Other,
}

/// What the session does with a frame.
pub enum FrameAction {
    Pong(Vec<u8>),
    Nothing,
    Serve(String),
    Stop,
}

/// The liveness state of one player's session: when the player was last
/// heard from, in milliseconds on the server's clock.
pub struct Game {
    pub heartbeat: u64,
}

pub open spec fn elapsed(now: u64, since: u64) -> int {
    if now >= since {
        now - since
    } else {
        0
    }
}

impl Game {
    pub fn new(now: u64) -> (r: Game)
        ensures
            r.heartbeat == now,
    {
        Game { heartbeat: now }
    }

    /// The periodic check: a session silent for longer than the timeout is
    /// stopped, any other is probed.
    pub fn heartbeat(&self, now: u64) -> (r: Liveness)
        ensures
            r == (if elapsed(now, self.heartbeat) > CLIENT_TIMEOUT_MS {
                Liveness::Stop
            } else {
                Liveness::Ping
            }),
    {
        let gone = if now >= self.heartbeat {
            now - self.heartbeat
        } else {
            0
        };
        if gone > CLIENT_TIMEOUT_MS {
            Liveness::Stop
        } else {
            Liveness::Ping
        }
    }

    /// Handles a frame received at `now`. Pings are answered and, like
    /// pongs, count as a sign of life; text is a request to serve; anything
    /// else ends the session.
    pub fn on_frame(&mut self, frame: Frame, now: u64) -> (r: FrameAction)
        ensures
            match frame {
                Frame::Ping(b) => final(self).heartbeat == now && (r matches FrameAction::Pong(p) && p@ == b@),
                Frame::Pong => final(self).heartbeat == now && r is Nothing,
                Frame::Text(t) => final(self).heartbeat == old(self).heartbeat && (r matches FrameAction::Serve(s) && s@ == t@),
                Frame::Other => final(self).heartbeat == old(self).heartbeat && r is Stop,
            },
    {
        match frame {
            Frame::Ping(b) => {
                self.heartbeat = now;
                FrameAction::Pong(b)
            },
            Frame::Pong => {
                self.heartbeat = now;
                FrameAction::Nothing
            },
            Frame::Text(t) => FrameAction::Serve(t),
            Frame::Other => FrameAction::Stop,
        }
    }
}

} // verus!
