//! The wire form of a message: one line of JSON text.
//!
//! A frame is a JSON object with a `type` member, which names the kind of
//! message, and a `payload` member, an object that holds its fields; a single
//! line feed ends it. Reading and writing JSON is left to `serde_json`; which
//! documents are messages, and which bytes are frames, is decided here.

use crate::error::{Failure, MineChatError};
use crate::json::{
    empty_object, is_null, json_of, json_parse, json_text, member, null_value, parse_value,
    render_value, string_value, text_of, with_member, Json,
};
use crate::protocol::{
    text_view, AuthAckPayload, AuthPayload, BroadcastPayload, ChatPayload, DisconnectPayload,
    Envelope, MineChatMessage,
};
use crate::text::same_text;
use vstd::prelude::*;
use vstd::slice::slice_subrange;

verus! {

/// The byte that ends a frame.
pub const LINE_FEED: u8 = 10;

/// The member of an object under a name, if the document is an object and has one.
pub open spec fn lookup(document: Json, name: Seq<char>) -> Option<Json> {
    match document {
        Json::Object(members) => if members.dom().contains(name) {
            Some(members[name])
        } else {
            None
        },
        _ => None,
    }
}

/// The text of a member that must be there and must be a string.
pub open spec fn required_text(document: Json, name: Seq<char>) -> Option<Seq<char>> {
    match lookup(document, name) {
        Some(Json::Str(text)) => Some(text),
        _ => None,
    }
}

/// The text of a member that may be left out or be `null`. The outer `None`
/// says that the member is there with a value that is neither a string nor `null`.
pub open spec fn optional_text(document: Json, name: Seq<char>) -> Option<Option<Seq<char>>> {
    match lookup(document, name) {
        None => Some(None),
        Some(Json::Null) => Some(None),
        Some(Json::Str(text)) => Some(Some(text)),
        Some(_) => None,
    }
}

/// Whether a tag names one of the five kinds of message.
pub open spec fn known_tag(tag: Seq<char>) -> bool {
    tag == "AUTH"@ || tag == "AUTH_ACK"@ || tag == "CHAT"@ || tag == "BROADCAST"@ || tag
        == "DISCONNECT"@
}

/// The message of the kind that `tag` names whose fields `payload` holds.
pub open spec fn payload_envelope(tag: Seq<char>, payload: Json) -> Option<Envelope> {
    if tag == "AUTH"@ {
        match (required_text(payload, "client_uuid"@), required_text(payload, "link_code"@)) {
            (Some(client_uuid), Some(link_code)) => Some(Envelope::Auth { client_uuid, link_code }),
            _ => None,
        }
    } else if tag == "AUTH_ACK"@ {
        match (
            required_text(payload, "status"@),
            required_text(payload, "message"@),
            optional_text(payload, "minecraft_uuid"@),
            optional_text(payload, "username"@),
        ) {
            (Some(status), Some(message), Some(minecraft_uuid), Some(username)) => Some(
                Envelope::AuthAck { status, message, minecraft_uuid, username },
            ),
            _ => None,
        }
    } else if tag == "CHAT"@ {
        match required_text(payload, "message"@) {
            Some(message) => Some(Envelope::Chat { message }),
            None => None,
        }
    } else if tag == "BROADCAST"@ {
        match (required_text(payload, "from"@), required_text(payload, "message"@)) {
            (Some(from), Some(message)) => Some(Envelope::Broadcast { from, message }),
            _ => None,
        }
    } else if tag == "DISCONNECT"@ {
        match required_text(payload, "reason"@) {
            Some(reason) => Some(Envelope::Disconnect { reason }),
            None => None,
        }
    } else {
        None
    }
}

/// The message that a JSON document stands for, if it stands for one.
/// Members that the protocol does not name are passed over.
pub open spec fn json_envelope(document: Json) -> Option<Envelope> {
    match (required_text(document, "type"@), lookup(document, "payload"@)) {
        (Some(tag), Some(payload)) => payload_envelope(tag, payload),
        _ => None,
    }
}

/// The tag under which a message travels.
pub open spec fn tag_of(envelope: Envelope) -> Seq<char> {
    match envelope {
        Envelope::Auth { .. } => "AUTH"@,
        Envelope::AuthAck { .. } => "AUTH_ACK"@,
        Envelope::Chat { .. } => "CHAT"@,
        Envelope::Broadcast { .. } => "BROADCAST"@,
        Envelope::Disconnect { .. } => "DISCONNECT"@,
    }
}

/// An optional text as JSON: the string, or `null` where there is none.
pub open spec fn optional_json(text: Option<Seq<char>>) -> Json {
    match text {
        Some(t) => Json::Str(t),
        None => Json::Null,
    }
}

/// The payload object of a message.
pub open spec fn payload_json(envelope: Envelope) -> Json {
    match envelope {
        Envelope::Auth { client_uuid, link_code } => Json::Object(
            Map::empty().insert("client_uuid"@, Json::Str(client_uuid)).insert(
                "link_code"@,
                Json::Str(link_code),
            ),
        ),
        Envelope::AuthAck { status, message, minecraft_uuid, username } => Json::Object(
            Map::empty().insert("status"@, Json::Str(status)).insert(
                "message"@,
                Json::Str(message),
            ).insert("minecraft_uuid"@, optional_json(minecraft_uuid)).insert(
                "username"@,
                optional_json(username),
            ),
        ),
        Envelope::Chat { message } => Json::Object(
            Map::empty().insert("message"@, Json::Str(message)),
        ),
        Envelope::Broadcast { from, message } => Json::Object(
            Map::empty().insert("from"@, Json::Str(from)).insert("message"@, Json::Str(message)),
        ),
        Envelope::Disconnect { reason } => Json::Object(
            Map::empty().insert("reason"@, Json::Str(reason)),
        ),
    }
}

/// The JSON document that stands for a message.
pub open spec fn envelope_json(envelope: Envelope) -> Json {
    Json::Object(
        Map::empty().insert("type"@, Json::Str(tag_of(envelope))).insert(
            "payload"@,
            payload_json(envelope),
        ),
    )
}

/// Whether a text holds no line feed.
pub open spec fn single_line(text: Seq<u8>) -> bool {
    forall|i: int| 0 <= i < text.len() ==> text[i] != LINE_FEED
}

/// A text made into a frame: the text and a line feed, if the text is one line.
pub open spec fn sealed(text: Seq<u8>) -> Option<Seq<u8>> {
    if single_line(text) {
        Some(text.push(LINE_FEED))
    } else {
        None
    }
}

/// The text inside a frame: the line without the line feed that may end it,
/// if no other line feed is in it.
pub open spec fn unsealed(line: Seq<u8>) -> Option<Seq<u8>> {
    let body = if line.len() > 0 && line.last() == LINE_FEED {
        line.drop_last()
    } else {
        line
    };
    if single_line(body) {
        Some(body)
    } else {
        None
    }
}

/// What is written for a message: its JSON text and a line feed. There is
/// nothing where `serde_json` writes no text for the message, or writes one
/// with a line feed in it.
pub open spec fn written(envelope: Envelope) -> Option<Seq<u8>> {
    match json_text(envelope_json(envelope)) {
        Some(text) => sealed(text),
        None => None,
    }
}

/// The frame of a message: what is written for it, provided that the same
/// message is read from it. A message for which nothing is written, or one
/// that would not be read back, has no frame.
pub open spec fn frame_of(envelope: Envelope) -> Option<Seq<u8>> {
    match written(envelope) {
        Some(frame) => if frame_envelope(frame) == Some(envelope) {
            Some(frame)
        } else {
            None
        },
        None => None,
    }
}

/// The message that a line carries, if it is the frame of one.
pub open spec fn frame_envelope(line: Seq<u8>) -> Option<Envelope> {
    match unsealed(line) {
        Some(body) => match json_parse(body) {
            Some(document) => json_envelope(document),
            None => None,
        },
        None => None,
    }
}

/// Whether `serde_json` reads a document back from the text it writes for it.
pub open spec fn reads_back(document: Json) -> bool {
    json_text(document) matches Some(text) && json_parse(text) == Some(document)
}

/// Whether a message of the kind `tag` cannot do without the field `name`.
pub open spec fn requires_field(tag: Seq<char>, name: Seq<char>) -> bool {
    ||| tag == "AUTH"@ && (name == "client_uuid"@ || name == "link_code"@)
    ||| tag == "AUTH_ACK"@ && (name == "status"@ || name == "message"@)
    ||| tag == "CHAT"@ && name == "message"@
    ||| tag == "BROADCAST"@ && (name == "from"@ || name == "message"@)
    ||| tag == "DISCONNECT"@ && name == "reason"@
}

proof fn lemma_names_differ()
    ensures
        "type"@ != "payload"@,
        "client_uuid"@ != "link_code"@,
        "status"@ != "message"@,
        "status"@ != "minecraft_uuid"@,
        "status"@ != "username"@,
        "message"@ != "minecraft_uuid"@,
        "message"@ != "username"@,
        "minecraft_uuid"@ != "username"@,
        "from"@ != "message"@,
{
    reveal_strlit("type");
    reveal_strlit("payload");
    reveal_strlit("client_uuid");
    reveal_strlit("link_code");
    reveal_strlit("status");
    reveal_strlit("message");
    reveal_strlit("minecraft_uuid");
    reveal_strlit("username");
    reveal_strlit("from");
    assert("type"@.len() == 4 && "payload"@.len() == 7);
    assert("client_uuid"@.len() == 11 && "link_code"@.len() == 9);
    assert("status"@.len() == 6 && "message"@.len() == 7);
    assert("minecraft_uuid"@.len() == 14 && "username"@.len() == 8);
    assert("from"@.len() == 4);
}

proof fn lemma_tags_differ()
    ensures
        "AUTH"@ != "AUTH_ACK"@,
        "AUTH"@ != "CHAT"@,
        "AUTH"@ != "BROADCAST"@,
        "AUTH"@ != "DISCONNECT"@,
        "AUTH_ACK"@ != "CHAT"@,
        "AUTH_ACK"@ != "BROADCAST"@,
        "AUTH_ACK"@ != "DISCONNECT"@,
        "CHAT"@ != "BROADCAST"@,
        "CHAT"@ != "DISCONNECT"@,
        "BROADCAST"@ != "DISCONNECT"@,
{
    reveal_strlit("AUTH");
    reveal_strlit("AUTH_ACK");
    reveal_strlit("CHAT");
    reveal_strlit("BROADCAST");
    reveal_strlit("DISCONNECT");
    assert("AUTH"@.len() == 4 && "AUTH_ACK"@.len() == 8 && "CHAT"@.len() == 4);
    assert("BROADCAST"@.len() == 9 && "DISCONNECT"@.len() == 10);
    assert("AUTH"@[0] == 'A' && "CHAT"@[0] == 'C');
}

/// Every message is read back from the document that stands for it.
pub proof fn lemma_document_round_trip(envelope: Envelope)
    ensures
        json_envelope(envelope_json(envelope)) == Some(envelope),
{
    lemma_names_differ();
    lemma_tags_differ();
}

/// Decoding undoes encoding: from the frame of a message that very message
/// is read.
pub proof fn lemma_frame_round_trip(envelope: Envelope)
    ensures
        frame_of(envelope) matches Some(frame) ==> frame_envelope(frame) == Some(envelope),
{
}

/// A message has a frame wherever `serde_json` writes its document on one
/// line and reads the document back from what it wrote.
pub proof fn lemma_frame_exists(envelope: Envelope)
    ensures
        reads_back(envelope_json(envelope)) && written(envelope) is Some ==> frame_of(envelope)
            is Some,
        frame_of(envelope) is Some ==> frame_of(envelope) == written(envelope),
{
    if reads_back(envelope_json(envelope)) && written(envelope) is Some {
        let text = json_text(envelope_json(envelope))->0;
        let frame = text.push(LINE_FEED);
        assert(frame.last() == LINE_FEED);
        assert(frame.drop_last() =~= text);
        lemma_document_round_trip(envelope);
    }
}

/// A line with a line feed anywhere but at its end carries no message.
pub proof fn lemma_embedded_line_feed_rejected(line: Seq<u8>, at: int)
    requires
        0 <= at < line.len() - 1,
        line[at] == LINE_FEED,
    ensures
        frame_envelope(line) is None,
{
    assert(line.drop_last()[at] == LINE_FEED);
}

/// A line that is not JSON text carries no message.
pub proof fn lemma_not_json_rejected(line: Seq<u8>)
    ensures
        (unsealed(line) matches Some(body) && json_parse(body) is None) ==> frame_envelope(line)
            is None,
{
}

/// A document without a string under `type` stands for no message.
pub proof fn lemma_untagged_rejected(document: Json)
    requires
        required_text(document, "type"@) is None,
    ensures
        json_envelope(document) is None,
{
}

/// A document whose `type` names no kind of message stands for no message.
pub proof fn lemma_unknown_tag_rejected(document: Json)
    requires
        required_text(document, "type"@) matches Some(tag) && !known_tag(tag),
    ensures
        json_envelope(document) is None,
{
}

/// A document without a payload stands for no message.
pub proof fn lemma_missing_payload_rejected(document: Json)
    requires
        lookup(document, "payload"@) is None,
    ensures
        json_envelope(document) is None,
{
}

/// A payload that lacks a field which its kind of message cannot do without,
/// or holds something other than a string under that name, is no message.
pub proof fn lemma_missing_field_rejected(tag: Seq<char>, payload: Json, name: Seq<char>)
    requires
        requires_field(tag, name),
        required_text(payload, name) is None,
    ensures
        payload_envelope(tag, payload) is None,
{
    lemma_tags_differ();
}

/// A payload with something other than a string or `null` under the name of
/// a field that may be left out is no message.
pub proof fn lemma_mistyped_optional_field_rejected(payload: Json, name: Seq<char>)
    requires
        name == "minecraft_uuid"@ || name == "username"@,
        optional_text(payload, name) is None,
    ensures
        payload_envelope("AUTH_ACK"@, payload) is None,
{
    lemma_tags_differ();
}

/// What every line that carries a message has: it is one line, it is JSON
/// text, the document has a known tag under `type` and a payload under
/// `payload`, and the payload holds a string under the name of every field
/// that the kind of message cannot do without. A line that falls short of
/// any of these carries no message.
pub proof fn lemma_accepted_line(line: Seq<u8>)
    requires
        frame_envelope(line) is Some,
    ensures
        ({
            &&& unsealed(line) matches Some(body)
            &&& json_parse(body) matches Some(document)
            &&& required_text(document, "type"@) matches Some(tag)
            &&& lookup(document, "payload"@) matches Some(payload)
            &&& known_tag(tag)
            &&& tag == tag_of(frame_envelope(line)->0)
            &&& forall|name: Seq<char>| #[trigger]
                requires_field(tag, name) ==> required_text(payload, name) is Some
        }),
{
    lemma_tags_differ();
}

/// A member that the protocol does not name makes no difference to the
/// message that a document stands for.
pub proof fn lemma_unknown_member_ignored(
    members: Map<Seq<char>, Json>,
    name: Seq<char>,
    item: Json,
)
    requires
        name != "type"@,
        name != "payload"@,
    ensures
        json_envelope(Json::Object(members.insert(name, item))) == json_envelope(
            Json::Object(members),
        ),
{
}

/// Whether a name is that of a field of some kind of message.
pub open spec fn field_name(name: Seq<char>) -> bool {
    ||| name == "client_uuid"@
    ||| name == "link_code"@
    ||| name == "status"@
    ||| name == "message"@
    ||| name == "minecraft_uuid"@
    ||| name == "username"@
    ||| name == "from"@
    ||| name == "reason"@
}

/// A member of the payload that is no field of any kind of message makes no
/// difference to the message that the payload holds.
pub proof fn lemma_unknown_field_ignored(
    tag: Seq<char>,
    fields: Map<Seq<char>, Json>,
    name: Seq<char>,
    item: Json,
)
    requires
        !field_name(name),
    ensures
        payload_envelope(tag, Json::Object(fields.insert(name, item))) == payload_envelope(
            tag,
            Json::Object(fields),
        ),
{
}

/// A frame is one line: it ends in a line feed and holds no other.
pub proof fn lemma_frame_is_one_line(envelope: Envelope)
    ensures
        frame_of(envelope) matches Some(frame) ==> frame.len() > 0 && frame.last() == LINE_FEED
            && single_line(frame.drop_last()),
{
    if let Some(frame) = frame_of(envelope) {
        let text = json_text(envelope_json(envelope))->0;
        assert(frame.drop_last() =~= text);
    }
}

fn required(document: &serde_json::Value, name: &str) -> (r: Option<String>)
    ensures
        text_view(r) == required_text(json_of(*document), name@),
{
    match member(document, name) {
        Some(found) => text_of(found),
        None => None,
    }
}

fn optional(document: &serde_json::Value, name: &str) -> (r: Option<Option<String>>)
    ensures
        match optional_text(json_of(*document), name@) {
            Some(text) => r matches Some(found) && text_view(found) == text,
            None => r is None,
        },
{
    match member(document, name) {
        None => Some(None),
        Some(found) => {
            if is_null(found) {
                Some(None)
            } else {
                match text_of(found) {
                    Some(text) => Some(Some(text)),
                    None => None,
                }
            }
        },
    }
}

fn optional_value(text: &Option<String>) -> (r: serde_json::Value)
    ensures
        json_of(r) == optional_json(text_view(*text)),
{
    match text {
        Some(t) => string_value(t.clone()),
        None => null_value(),
    }
}

/// Reads the fields of a message of the kind `tag` from its payload.
pub fn payload_message(tag: &str, payload: &serde_json::Value) -> (r: Option<MineChatMessage>)
    ensures
        match payload_envelope(tag@, json_of(*payload)) {
            Some(envelope) => r matches Some(message) && message@ == envelope,
            None => r is None,
        },
{
    if same_text(tag, "AUTH") {
        match (required(payload, "client_uuid"), required(payload, "link_code")) {
            (Some(client_uuid), Some(link_code)) => Some(
                MineChatMessage::Auth { payload: AuthPayload { client_uuid, link_code } },
            ),
            _ => None,
        }
    } else if same_text(tag, "AUTH_ACK") {
        match (
            required(payload, "status"),
            required(payload, "message"),
            optional(payload, "minecraft_uuid"),
            optional(payload, "username"),
        ) {
            (Some(status), Some(message), Some(minecraft_uuid), Some(username)) => Some(
                MineChatMessage::AuthAck {
                    payload: AuthAckPayload { status, message, minecraft_uuid, username },
                },
            ),
            _ => None,
        }
    } else if same_text(tag, "CHAT") {
        match required(payload, "message") {
            Some(message) => Some(MineChatMessage::Chat { payload: ChatPayload { message } }),
            None => None,
        }
    } else if same_text(tag, "BROADCAST") {
        match (required(payload, "from"), required(payload, "message")) {
            (Some(from), Some(message)) => Some(
                MineChatMessage::Broadcast { payload: BroadcastPayload { from, message } },
            ),
            _ => None,
        }
    } else if same_text(tag, "DISCONNECT") {
        match required(payload, "reason") {
            Some(reason) => Some(
                MineChatMessage::Disconnect { payload: DisconnectPayload { reason } },
            ),
            None => None,
        }
    } else {
        None
    }
}

/// Reads a message from a JSON value.
pub fn value_message(document: &serde_json::Value) -> (r: Option<MineChatMessage>)
    ensures
        match json_envelope(json_of(*document)) {
            Some(envelope) => r matches Some(message) && message@ == envelope,
            None => r is None,
        },
{
    match (required(document, "type"), member(document, "payload")) {
        (Some(tag), Some(payload)) => payload_message(tag.as_str(), payload),
        _ => None,
    }
}

/// Writes the fields of a message into a JSON object.
pub fn payload_value(message: &MineChatMessage) -> (r: serde_json::Value)
    ensures
        json_of(r) == payload_json(message@),
{
    let fields = empty_object();
    match message {
        MineChatMessage::Auth { payload } => {
            let fields = with_member(
                fields,
                "client_uuid",
                string_value(payload.client_uuid.clone()),
            );
            with_member(fields, "link_code", string_value(payload.link_code.clone()))
        },
        MineChatMessage::AuthAck { payload } => {
            let fields = with_member(fields, "status", string_value(payload.status.clone()));
            let fields = with_member(fields, "message", string_value(payload.message.clone()));
            let fields = with_member(
                fields,
                "minecraft_uuid",
                optional_value(&payload.minecraft_uuid),
            );
            with_member(fields, "username", optional_value(&payload.username))
        },
        MineChatMessage::Chat { payload } => with_member(
            fields,
            "message",
            string_value(payload.message.clone()),
        ),
        MineChatMessage::Broadcast { payload } => {
            let fields = with_member(fields, "from", string_value(payload.from.clone()));
            with_member(fields, "message", string_value(payload.message.clone()))
        },
        MineChatMessage::Disconnect { payload } => with_member(
            fields,
            "reason",
            string_value(payload.reason.clone()),
        ),
    }
}

/// The tag under which a message travels.
pub fn message_tag(message: &MineChatMessage) -> (tag: &'static str)
    ensures
        tag@ == tag_of(message@),
{
    match message {
        MineChatMessage::Auth { .. } => "AUTH",
        MineChatMessage::AuthAck { .. } => "AUTH_ACK",
        MineChatMessage::Chat { .. } => "CHAT",
        MineChatMessage::Broadcast { .. } => "BROADCAST",
        MineChatMessage::Disconnect { .. } => "DISCONNECT",
    }
}

/// Writes a message as a JSON value.
pub fn message_value(message: &MineChatMessage) -> (r: serde_json::Value)
    ensures
        json_of(r) == envelope_json(message@),
{
    let tag = string_value(message_tag(message).to_owned());
    let document = with_member(empty_object(), "type", tag);
    with_member(document, "payload", payload_value(message))
}

/// Whether a text holds a line feed.
pub fn has_line_feed(text: &[u8]) -> (found: bool)
    ensures
        found == !single_line(text@),
{
    let mut i: usize = 0;
    while i < text.len()
        invariant
            i <= text.len(),
            forall|k: int| 0 <= k < i ==> text@[k] != LINE_FEED,
        decreases text.len() - i,
    {
        if text[i] == LINE_FEED {
            return true;
        }
        i = i + 1;
    }
    false
}

/// Makes a frame of a text by adding the line feed, unless the text holds one.
pub fn seal(text: Vec<u8>) -> (r: Option<Vec<u8>>)
    ensures
        match sealed(text@) {
            Some(frame) => r matches Some(bytes) && bytes@ == frame,
            None => r is None,
        },
{
    if has_line_feed(text.as_slice()) {
        None
    } else {
        let mut frame = text;
        frame.push(LINE_FEED);
        Some(frame)
    }
}

/// Takes the text out of a frame: drops the line feed that may end the line
/// and refuses a line with any other line feed in it.
pub fn unseal(line: &[u8]) -> (r: Option<&[u8]>)
    ensures
        match unsealed(line@) {
            Some(body) => r matches Some(bytes) && bytes@ == body,
            None => r is None,
        },
{
    let n = line.len();
    let body = if n > 0 && line[n - 1] == LINE_FEED {
        slice_subrange(line, 0, n - 1)
    } else {
        line
    };
    if has_line_feed(body) {
        None
    } else {
        Some(body)
    }
}

/// Writes a message as a frame: one line of JSON text, ended by a line feed.
///
/// The frame is read back before it is handed out, so whatever is returned
/// carries the message. The result is `Err(Encoding)` where the message has
/// no frame: where `serde_json` writes no text for it, or one that holds a
/// line feed, or one from which the message is not read back.
pub fn encode(message: &MineChatMessage) -> (r: Result<Vec<u8>, MineChatError>)
    ensures
        match frame_of(message@) {
            Some(frame) => r matches Ok(bytes) && bytes@ == frame,
            None => r matches Err(e) && e@ == Failure::Encoding,
        },
        r matches Ok(bytes) ==> frame_envelope(bytes@) == Some(message@),
{
    let document = message_value(message);
    let frame = match render_value(&document) {
        Ok(text) => seal(text),
        Err(_) => None,
    };
    match frame {
        Some(frame) => match decode(frame.as_slice()) {
            Ok(read) => if read.same(message) {
                Ok(frame)
            } else {
                Err(MineChatError::Encoding)
            },
            Err(_) => Err(MineChatError::Encoding),
        },
        None => Err(MineChatError::Encoding),
    }
}

/// Reads the message that a line carries.
///
/// The result is `Err(Decoding)` where the line is not the frame of a
/// message: where it holds a line feed before its end, is not JSON text, does
/// not name a known kind of message, or lacks a field of that kind or has one
/// of the wrong type.
pub fn decode(line: &[u8]) -> (r: Result<MineChatMessage, MineChatError>)
    ensures
        match frame_envelope(line@) {
            Some(envelope) => r matches Ok(message) && message@ == envelope,
            None => r matches Err(e) && e@ == Failure::Decoding,
        },
{
    match unseal(line) {
        Some(body) => match parse_value(body) {
            Ok(document) => match value_message(&document) {
                Some(message) => Ok(message),
                None => Err(MineChatError::Decoding),
            },
            Err(_) => Err(MineChatError::Decoding),
        },
        None => Err(MineChatError::Decoding),
    }
}

} // verus!
