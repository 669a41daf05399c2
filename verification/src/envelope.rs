//! The wire envelopes exchanged over a connection.
//!
//! Every frame is JSON text of the shape `{"type": ..., "data": {...}}`.
//! Inbound text is parsed once at the boundary (through `serde_json`) into
//! the closed [`Envelope`] union and matched exhaustively; frames that are
//! not valid JSON or carry an unknown or ill-shaped payload fall into the
//! explicit `Ignore` variant and are dropped silently, without tearing the
//! connection down. Outbound frames are rendered by a verified encoder
//! whose exact output is stated by [`spec_frame_json`].

use vstd::prelude::*;
use vstd::string::{StrSliceExecFns, StringExecFns};
use crate::chat::{Message, MessageType};
use crate::textfmt::{push_char, push_dec_i64, spec_dec_int, spec_digit};

verus! {

/// Decoded payload of a `message` envelope.
pub struct MessagePayload {
    pub from_user: String,
    pub to_user: String,
    pub content: String,
    pub message_type: MessageType,
    pub is_group: bool,
    pub file_id: Option<String>,
    pub extends: Option<String>,
    pub at: Option<String>,
}

/// An inbound envelope, decoded once at the boundary.
pub enum Envelope {
    /// Heartbeat request.
    Ping,
    /// Request to bind this connection to the user the credential names.
    BindUid { token: String },
    /// A chat message to route.
    Chat(MessagePayload),
    /// Anything else: unknown discriminant, missing fields, or text that is
    /// not valid JSON. Dropped without effect.
    Ignore,
}

/// An outbound frame queued for delivery on one connection.
pub enum OutboundFrame {
    /// Sent once when a connection is accepted, carrying its identifier.
    Init { client_id: String },
    /// Heartbeat reply; `bind_ack` marks the acknowledgment variant sent
    /// after a successful bind, which carries `{"multiport": false}`.
    Pong { bind_ack: bool },
    /// A routed chat message (a recipient's copy or the sender's echo).
    Chat(Message),
}

/// The content-type tag of a `message` payload: recognised tags name their
/// kind, anything else (a missing tag included) is plain text.
pub open spec fn spec_message_type(tag: Option<Seq<char>>) -> MessageType {
    match tag {
        Some(t) => {
            if t == "image"@ {
                MessageType::Image
            } else if t == "voice"@ {
                MessageType::Voice
            } else if t == "video"@ {
                MessageType::Video
            } else if t == "file"@ {
                MessageType::File
            } else if t == "event"@ {
                MessageType::Event
            } else if t == "system"@ {
                MessageType::System
            } else {
                MessageType::Text
            }
        },
        None => MessageType::Text,
    }
}

/// The views of an optional string.
pub open spec fn opt_str_view(o: Option<String>) -> Option<Seq<char>> {
    match o {
        Some(s) => Some(s@),
        None => None,
    }
}

/// Maps a `message` payload's type tag to its content type, defaulting to
/// plain text.
pub fn message_type_from(tag: &Option<String>) -> (r: MessageType)
    ensures
        r == spec_message_type(opt_str_view(*tag)),
{
    match tag {
        Some(t) => {
            if *t == String::from_str("image") {
                MessageType::Image
            } else if *t == String::from_str("voice") {
                MessageType::Voice
            } else if *t == String::from_str("video") {
                MessageType::Video
            } else if *t == String::from_str("file") {
                MessageType::File
            } else if *t == String::from_str("event") {
                MessageType::Event
            } else if *t == String::from_str("system") {
                MessageType::System
            } else {
                MessageType::Text
            }
        },
        None => MessageType::Text,
    }
}

/// The string under the top-level `type` key of a JSON text: `None` when
/// the text is not valid JSON, has no `type` key, or holds something other
/// than a string there. A pure function of the text, named so that the
/// decoder's contract can speak of it.
pub uninterp spec fn spec_json_type_field(text: Seq<char>) -> Option<Seq<char>>;

/// The string under `key` of the top-level `data` object of a JSON text,
/// if the text parses, carries a `data` object, and holds a string there.
/// A pure function of the text and the key.
pub uninterp spec fn spec_json_string_field(text: Seq<char>, key: Seq<char>) -> Option<Seq<char>>;

/// The boolean under `key` of the top-level `data` object of a JSON text,
/// read the same way as `spec_json_string_field`.
pub uninterp spec fn spec_json_bool_field(text: Seq<char>, key: Seq<char>) -> Option<bool>;

/// Relies on `serde_json::from_str::<Value>` and `Value::get`/`as_str`: the
/// envelope discriminant, that is the string under the text's top-level
/// `type` key. The result depends on the text alone.
#[verifier::external_body]
fn json_type_field(text: &str) -> (r: Option<String>)
    ensures
        opt_str_view(r) == spec_json_type_field(text@),
{
    let parsed: Option<serde_json::Value> = serde_json::from_str(text).ok();
    parsed.as_ref().and_then(|v| v.get("type")).and_then(|k| k.as_str()).map(|s| s.to_string())
}

/// Relies on `serde_json::from_str::<Value>` and `Value::get`/`as_str`: the
/// string under `key` of the text's `data` object. The result depends on
/// the text and the key alone.
#[verifier::external_body]
fn json_data_string_field(text: &str, key: &str) -> (r: Option<String>)
    ensures
        opt_str_view(r) == spec_json_string_field(text@, key@),
{
    let parsed: Option<serde_json::Value> = serde_json::from_str(text).ok();
    parsed
        .as_ref()
        .and_then(|v| v.get("data"))
        .and_then(|d| d.get(key))
        .and_then(|f| f.as_str())
        .map(|s| s.to_string())
}

/// Relies on `serde_json::from_str::<Value>` and `Value::get`/`as_bool`:
/// the boolean under `key` of the text's `data` object. The result depends
/// on the text and the key alone.
#[verifier::external_body]
fn json_data_bool_field(text: &str, key: &str) -> (r: Option<bool>)
    ensures
        r == spec_json_bool_field(text@, key@),
{
    let parsed: Option<serde_json::Value> = serde_json::from_str(text).ok();
    parsed
        .as_ref()
        .and_then(|v| v.get("data"))
        .and_then(|d| d.get(key))
        .and_then(|f| f.as_bool())
}

/// Decodes one inbound text frame into the closed envelope union, matching
/// the wire shapes exactly: `ping` becomes a heartbeat, `bindUid` carries
/// its credential, `message` carries its payload with the content type
/// defaulting to plain text, and everything else - text that is not valid
/// JSON, an unknown discriminant, or a payload missing a required field -
/// falls into `Ignore` and is dropped silently.
pub fn decode_envelope(text: &str) -> (e: Envelope)
    ensures
        match e {
            Envelope::Ping => spec_json_type_field(text@) == Some("ping"@),
            Envelope::BindUid { token } => spec_json_type_field(text@) == Some("bindUid"@)
                && spec_json_string_field(text@, "token"@) == Some(token@),
            Envelope::Chat(p) => {
                &&& spec_json_type_field(text@) == Some("message"@)
                &&& spec_json_string_field(text@, "from_user"@) == Some(p.from_user@)
                &&& spec_json_string_field(text@, "to_user"@) == Some(p.to_user@)
                &&& spec_json_string_field(text@, "content"@) == Some(p.content@)
                &&& spec_json_bool_field(text@, "is_group"@) == Some(p.is_group)
                &&& p.message_type == spec_message_type(spec_json_string_field(text@, "type"@))
                &&& opt_str_view(p.file_id) == spec_json_string_field(text@, "file_id"@)
                &&& opt_str_view(p.extends) == spec_json_string_field(text@, "extends"@)
                &&& opt_str_view(p.at) == spec_json_string_field(text@, "at"@)
            },
            Envelope::Ignore => {
                ||| spec_json_type_field(text@) is None
                ||| (spec_json_type_field(text@) matches Some(k) && k != "ping"@ && k
                    != "bindUid"@ && k != "message"@)
                ||| (spec_json_type_field(text@) == Some("bindUid"@) && spec_json_string_field(
                    text@,
                    "token"@,
                ) is None)
                ||| (spec_json_type_field(text@) == Some("message"@) && (spec_json_string_field(
                    text@,
                    "from_user"@,
                ) is None || spec_json_string_field(text@, "to_user"@) is None
                    || spec_json_string_field(text@, "content"@) is None || spec_json_bool_field(
                    text@,
                    "is_group"@,
                ) is None))
            },
        },
{
    let kind = match json_type_field(text) {
        Some(k) => k,
        None => {
            return Envelope::Ignore;
        },
    };
    if kind == String::from_str("ping") {
        Envelope::Ping
    } else if kind == String::from_str("bindUid") {
        match json_data_string_field(text, "token") {
            Some(token) => Envelope::BindUid { token },
            None => Envelope::Ignore,
        }
    } else if kind == String::from_str("message") {
        let from_user = match json_data_string_field(text, "from_user") {
            Some(s) => s,
            None => {
                return Envelope::Ignore;
            },
        };
        let to_user = match json_data_string_field(text, "to_user") {
            Some(s) => s,
            None => {
                return Envelope::Ignore;
            },
        };
        let content = match json_data_string_field(text, "content") {
            Some(s) => s,
            None => {
                return Envelope::Ignore;
            },
        };
        let is_group = match json_data_bool_field(text, "is_group") {
            Some(b) => b,
            None => {
                return Envelope::Ignore;
            },
        };
        let tag = json_data_string_field(text, "type");
        let message_type = message_type_from(&tag);
        Envelope::Chat(
            MessagePayload {
                from_user,
                to_user,
                content,
                message_type,
                is_group,
                file_id: json_data_string_field(text, "file_id"),
                extends: json_data_string_field(text, "extends"),
                at: json_data_string_field(text, "at"),
            },
        )
    } else {
        Envelope::Ignore
    }
}

/// The character for one hexadecimal digit, lower case.
pub open spec fn spec_hex_digit(d: int) -> char {
    if d < 10 {
        spec_digit(d)
    } else if d == 10 {
        'a'
    } else if d == 11 {
        'b'
    } else if d == 12 {
        'c'
    } else if d == 13 {
        'd'
    } else if d == 14 {
        'e'
    } else {
        'f'
    }
}

/// How one character is written inside a JSON string: quote and backslash
/// get a backslash, the named control characters their short escapes, the
/// other control characters a `\u00..` escape, and everything else stands
/// as itself.
pub open spec fn json_escaped_char(c: char) -> Seq<char> {
    if c == '"' {
        seq!['\\', '"']
    } else if c == '\\' {
        seq!['\\', '\\']
    } else if c == '\u{8}' {
        seq!['\\', 'b']
    } else if c == '\u{c}' {
        seq!['\\', 'f']
    } else if c == '\n' {
        seq!['\\', 'n']
    } else if c == '\r' {
        seq!['\\', 'r']
    } else if c == '\t' {
        seq!['\\', 't']
    } else if (c as u32) < 32 {
        seq!['\\', 'u', '0', '0', spec_hex_digit(c as u32 as int / 16), spec_hex_digit(
            c as u32 as int % 16,
        )]
    } else {
        seq![c]
    }
}

/// A whole string escaped for JSON, character by character.
pub open spec fn json_escaped(s: Seq<char>) -> Seq<char>
    decreases s.len(),
{
    if s.len() == 0 {
        Seq::empty()
    } else {
        json_escaped_char(s[0]) + json_escaped(s.drop_first())
    }
}

/// A JSON string literal: the escaped text between double quotes.
pub open spec fn json_quoted(s: Seq<char>) -> Seq<char> {
    seq!['"'] + json_escaped(s) + seq!['"']
}

/// An optional string as JSON: a string literal or `null`.
pub open spec fn json_opt_quoted(o: Option<Seq<char>>) -> Seq<char> {
    match o {
        Some(s) => json_quoted(s),
        None => "null"@,
    }
}

/// A boolean as JSON.
pub open spec fn json_bool(b: bool) -> Seq<char> {
    if b {
        "true"@
    } else {
        "false"@
    }
}

/// Escaping distributes over appending one character.
proof fn lemma_escaped_push(t: Seq<char>, c: char)
    ensures
        json_escaped(t.push(c)) == json_escaped(t) + json_escaped_char(c),
    decreases t.len(),
{
    let p = t.push(c);
    assert(p.len() == t.len() + 1);
    assert(json_escaped(p) == json_escaped_char(p[0]) + json_escaped(p.drop_first()));
    if t.len() == 0 {
        assert(p[0] == c);
        assert(p.drop_first() =~= Seq::<char>::empty());
        assert(json_escaped(p.drop_first()) == Seq::<char>::empty());
        assert(json_escaped(t) == Seq::<char>::empty());
        assert(json_escaped(p) =~= json_escaped(t) + json_escaped_char(c));
    } else {
        assert(p[0] == t[0]);
        assert(p.drop_first() =~= t.drop_first().push(c));
        lemma_escaped_push(t.drop_first(), c);
        vstd::seq_lib::lemma_concat_associative(
            json_escaped_char(t[0]),
            json_escaped(t.drop_first()),
            json_escaped_char(c),
        );
        assert(json_escaped(t) == json_escaped_char(t[0]) + json_escaped(t.drop_first()));
        assert(json_escaped(p) == json_escaped(t) + json_escaped_char(c));
    }
}

/// The character for one hexadecimal digit, as executable code.
fn hex_digit_char(d: u32) -> (c: char)
    requires
        d < 16,
    ensures
        c == spec_hex_digit(d as int),
{
    if d < 10 {
        crate::textfmt::digit_char(d as u64)
    } else if d == 10 {
        'a'
    } else if d == 11 {
        'b'
    } else if d == 12 {
        'c'
    } else if d == 13 {
        'd'
    } else if d == 14 {
        'e'
    } else {
        'f'
    }
}

/// Appends the JSON escape of one character.
fn push_escaped_char(out: &mut String, c: char)
    ensures
        final(out)@ == old(out)@ + json_escaped_char(c),
{
    if c == '"' {
        push_char(out, '\\');
        push_char(out, '"');
    } else if c == '\\' {
        push_char(out, '\\');
        push_char(out, '\\');
    } else if c == '\u{8}' {
        push_char(out, '\\');
        push_char(out, 'b');
    } else if c == '\u{c}' {
        push_char(out, '\\');
        push_char(out, 'f');
    } else if c == '\n' {
        push_char(out, '\\');
        push_char(out, 'n');
    } else if c == '\r' {
        push_char(out, '\\');
        push_char(out, 'r');
    } else if c == '\t' {
        push_char(out, '\\');
        push_char(out, 't');
    } else if (c as u32) < 32 {
        push_char(out, '\\');
        push_char(out, 'u');
        push_char(out, '0');
        push_char(out, '0');
        push_char(out, hex_digit_char((c as u32) / 16));
        push_char(out, hex_digit_char((c as u32) % 16));
    } else {
        push_char(out, c);
    }
    proof {
        assert(out@ =~= old(out)@ + json_escaped_char(c));
    }
}

/// Appends the JSON escape of a whole string.
fn push_json_escaped(out: &mut String, s: &str)
    ensures
        final(out)@ == old(out)@ + json_escaped(s@),
{
    let n = s.unicode_len();
    let mut i: usize = 0;
    while i < n
        invariant
            i <= n,
            n == s@.len(),
            out@ == old(out)@ + json_escaped(s@.take(i as int)),
        decreases n - i,
    {
        let c = s.get_char(i);
        push_escaped_char(out, c);
        proof {
            assert(s@.take(i as int + 1) =~= s@.take(i as int).push(s@[i as int]));
            lemma_escaped_push(s@.take(i as int), s@[i as int]);
            assert(out@ =~= old(out)@ + json_escaped(s@.take(i as int + 1)));
        }
        i = i + 1;
    }
    proof {
        assert(s@.take(n as int) =~= s@);
    }
}

/// Appends a JSON string literal.
fn push_quoted(out: &mut String, s: &str)
    ensures
        final(out)@ == old(out)@ + json_quoted(s@),
{
    push_char(out, '"');
    push_json_escaped(out, s);
    push_char(out, '"');
    proof {
        assert(out@ =~= old(out)@ + json_quoted(s@));
    }
}

/// Appends an optional string as JSON.
fn push_opt_quoted(out: &mut String, o: &Option<String>)
    ensures
        final(out)@ == old(out)@ + json_opt_quoted(opt_str_view(*o)),
{
    match o {
        Some(s) => push_quoted(out, s.as_str()),
        None => out.append("null"),
    }
}

/// Appends a boolean as JSON.
fn push_bool(out: &mut String, b: bool)
    ensures
        final(out)@ == old(out)@ + json_bool(b),
{
    if b {
        out.append("true");
    } else {
        out.append("false");
    }
}

/// The tag a message's content type is serialised as.
pub open spec fn spec_type_tag(t: MessageType) -> Seq<char> {
    match t {
        MessageType::Text => "Text"@,
        MessageType::Image => "Image"@,
        MessageType::Voice => "Voice"@,
        MessageType::Video => "Video"@,
        MessageType::File => "File"@,
        MessageType::Event => "Event"@,
        MessageType::System => "System"@,
    }
}

/// The tag a message's content type is serialised as.
fn type_tag(t: MessageType) -> (r: &'static str)
    ensures
        r@ == spec_type_tag(t),
{
    match t {
        MessageType::Text => "Text",
        MessageType::Image => "Image",
        MessageType::Voice => "Voice",
        MessageType::Video => "Video",
        MessageType::File => "File",
        MessageType::Event => "Event",
        MessageType::System => "System",
    }
}

/// `prefix` followed by the JSON object of a chat message, every field in
/// declaration order.
pub open spec fn message_json_onto(prefix: Seq<char>, m: Message) -> Seq<char> {
    prefix + "{\"id\":"@ + json_quoted(m.id@) + ",\"msg_id\":"@ + json_quoted(m.msg_id@)
        + ",\"from_user\":"@ + json_quoted(m.from_user@) + ",\"to_user\":"@ + json_quoted(
        m.to_user@,
    ) + ",\"content\":"@ + json_quoted(m.content@) + ",\"message_type\":"@ + json_quoted(
        spec_type_tag(m.message_type),
    ) + ",\"is_group\":"@ + json_bool(m.is_group) + ",\"is_read\":"@ + json_bool(m.is_read)
        + ",\"is_last\":"@ + json_bool(m.is_last) + ",\"chat_identify\":"@ + json_quoted(
        m.chat_identify@,
    ) + ",\"file_id\":"@ + json_opt_quoted(opt_str_view(m.file_id)) + ",\"extends\":"@
        + json_opt_quoted(opt_str_view(m.extends)) + ",\"at\":"@ + json_opt_quoted(
        opt_str_view(m.at),
    ) + ",\"created_at\":"@ + spec_dec_int(m.created_at as int) + ",\"updated_at\":"@
        + spec_dec_int(m.updated_at as int) + "}"@
}

/// The JSON text of one outbound frame, exactly as it goes on the wire.
pub open spec fn spec_frame_json(f: OutboundFrame) -> Seq<char> {
    match f {
        OutboundFrame::Init { client_id } => "{\"type\":\"init\",\"data\":{\"client_id\":"@
            + json_quoted(client_id@) + "}}"@,
        OutboundFrame::Pong { bind_ack } => {
            if bind_ack {
                "{\"type\":\"pong\",\"data\":{\"multiport\":false}}"@
            } else {
                "{\"type\":\"pong\",\"data\":{}}"@
            }
        },
        OutboundFrame::Chat(m) => message_json_onto("{\"type\":\"message\",\"data\":"@, m) + "}"@,
    }
}

/// Appends the JSON object of a chat message.
fn push_message_json(out: &mut String, m: &Message)
    ensures
        final(out)@ == message_json_onto(old(out)@, *m),
{
    out.append("{\"id\":");
    push_quoted(out, m.id.as_str());
    out.append(",\"msg_id\":");
    push_quoted(out, m.msg_id.as_str());
    out.append(",\"from_user\":");
    push_quoted(out, m.from_user.as_str());
    out.append(",\"to_user\":");
    push_quoted(out, m.to_user.as_str());
    out.append(",\"content\":");
    push_quoted(out, m.content.as_str());
    out.append(",\"message_type\":");
    push_quoted(out, type_tag(m.message_type));
    out.append(",\"is_group\":");
    push_bool(out, m.is_group);
    out.append(",\"is_read\":");
    push_bool(out, m.is_read);
    out.append(",\"is_last\":");
    push_bool(out, m.is_last);
    out.append(",\"chat_identify\":");
    push_quoted(out, m.chat_identify.as_str());
    out.append(",\"file_id\":");
    push_opt_quoted(out, &m.file_id);
    out.append(",\"extends\":");
    push_opt_quoted(out, &m.extends);
    out.append(",\"at\":");
    push_opt_quoted(out, &m.at);
    out.append(",\"created_at\":");
    push_dec_i64(out, m.created_at);
    out.append(",\"updated_at\":");
    push_dec_i64(out, m.updated_at);
    out.append("}");
}

/// Renders one outbound frame as the JSON text that goes on the wire.
pub fn encode_frame(f: &OutboundFrame) -> (r: String)
    ensures
        r@ == spec_frame_json(*f),
{
    match f {
        OutboundFrame::Init { client_id } => {
            let mut out = "{\"type\":\"init\",\"data\":{\"client_id\":".to_owned();
            push_quoted(&mut out, client_id.as_str());
            out.append("}}");
            out
        },
        OutboundFrame::Pong { bind_ack } => {
            if *bind_ack {
                "{\"type\":\"pong\",\"data\":{\"multiport\":false}}".to_owned()
            } else {
                "{\"type\":\"pong\",\"data\":{}}".to_owned()
            }
        },
        OutboundFrame::Chat(m) => {
            let mut out = "{\"type\":\"message\",\"data\":".to_owned();
            push_message_json(&mut out, m);
            out.append("}");
            out
        },
    }
}

} // verus!
