//! The event decoder: raw stream lines to typed protocol events.
//!
//! The remote service pushes one JSON payload per line behind a fixed
//! `data: ` marker, plus a literal `[DONE]` terminator.  Payloads are
//! discriminated by their `type` field; anything that matches no known
//! shape decodes to `Ignored`, so unknown event types never fail a round.

use crate::json::{get_field, get_text, json_field, json_parsed, json_text, parse_json};
use crate::strings::str_eq;
use vstd::prelude::*;
use vstd::string::*;

verus! {

/// One typed protocol event.
pub enum Event {
    /// A tool-use block opened, carrying the call's id and tool name.
    ToolUseStart { id: String, name: String },
    /// A text block opened; its text arrives through deltas.
    TextStart,
    /// A fragment of streamed text.
    TextDelta { text: String },
    /// A fragment of the open tool call's JSON input.
    InputJsonDelta { fragment: String },
    /// The current block closed.
    BlockStop,
    /// A message-level delta, possibly carrying a stop reason.
    MessageDelta { stop_reason: Option<String> },
    /// A line or payload that matches no known shape.
    Ignored,
}

/// Mathematical image of an `Event`.
pub enum EventView {
    ToolUseStart { id: Seq<char>, name: Seq<char> },
    TextStart,
    TextDelta { text: Seq<char> },
    InputJsonDelta { fragment: Seq<char> },
    BlockStop,
    MessageDelta { stop_reason: Option<Seq<char>> },
    Ignored,
}

impl View for Event {
    type V = EventView;

    open spec fn view(&self) -> EventView {
        match self {
            Event::ToolUseStart { id, name } => EventView::ToolUseStart { id: id@, name: name@ },
            Event::TextStart => EventView::TextStart,
            Event::TextDelta { text } => EventView::TextDelta { text: text@ },
            Event::InputJsonDelta { fragment } => EventView::InputJsonDelta { fragment: fragment@ },
            Event::BlockStop => EventView::BlockStop,
            Event::MessageDelta { stop_reason } => EventView::MessageDelta {
                stop_reason: match stop_reason {
                    Some(r) => Some(r@),
                    None => None,
                },
            },
            Event::Ignored => EventView::Ignored,
        }
    }
}

/// The string contents of field `key` of `v`: `None` where `v` has no
/// such field or the field is not a JSON string.
pub open spec fn field_text(v: serde_json::Value, key: Seq<char>) -> Option<Seq<char>> {
    match json_field(v, key) {
        Some(f) => json_text(f),
        None => None,
    }
}

/// The event a `content_block_start` payload denotes: a tool-use start
/// where the block carries type `tool_use` with an id and a name, the
/// no-op start of a text block otherwise.  A tool-use block missing its
/// id or name matches no known shape and is ignored.
pub open spec fn start_event(v: serde_json::Value) -> EventView {
    match json_field(v, "content_block"@) {
        None => EventView::Ignored,
        Some(cb) => if field_text(cb, "type"@) == Some("tool_use"@) {
            match (field_text(cb, "id"@), field_text(cb, "name"@)) {
                (Some(id), Some(name)) => EventView::ToolUseStart { id, name },
                _ => EventView::Ignored,
            }
        } else {
            EventView::TextStart
        },
    }
}

/// The event a `content_block_delta` payload denotes: a text fragment
/// where the delta carries `text`, otherwise a JSON input fragment where
/// it carries `partial_json`, otherwise nothing recognizable.
pub open spec fn delta_event(v: serde_json::Value) -> EventView {
    match json_field(v, "delta"@) {
        None => EventView::Ignored,
        Some(d) => match field_text(d, "text"@) {
            Some(text) => EventView::TextDelta { text },
            None => match field_text(d, "partial_json"@) {
                Some(fragment) => EventView::InputJsonDelta { fragment },
                None => EventView::Ignored,
            },
        },
    }
}

/// The event a `message_delta` payload denotes: a message delta whose
/// stop reason is the `delta.stop_reason` string, if any.
pub open spec fn message_event(v: serde_json::Value) -> EventView {
    match json_field(v, "delta"@) {
        None => EventView::MessageDelta { stop_reason: None },
        Some(d) => EventView::MessageDelta { stop_reason: field_text(d, "stop_reason"@) },
    }
}

/// The event a parsed payload denotes, discriminated by its `type` field.
pub open spec fn value_event(v: serde_json::Value) -> EventView {
    match field_text(v, "type"@) {
        None => EventView::Ignored,
        Some(t) => if t == "content_block_start"@ {
            start_event(v)
        } else if t == "content_block_delta"@ {
            delta_event(v)
        } else if t == "content_block_stop"@ {
            EventView::BlockStop
        } else if t == "message_delta"@ {
            message_event(v)
        } else {
            EventView::Ignored
        },
    }
}

/// The event a raw payload string denotes; anything that is not valid
/// JSON is ignored.
pub open spec fn payload_event(p: Seq<char>) -> EventView {
    match json_parsed(p) {
        None => EventView::Ignored,
        Some(v) => value_event(v),
    }
}

/// The event one stream line denotes.  Lines without the `data: ` marker
/// and the literal `[DONE]` terminator carry no event.
pub open spec fn line_event(l: Seq<char>) -> EventView {
    if l.len() >= 6 && l.subrange(0, 6) == "data: "@ {
        if l.subrange(6, l.len() as int) == "[DONE]"@ {
            EventView::Ignored
        } else {
            payload_event(l.subrange(6, l.len() as int))
        }
    } else {
        EventView::Ignored
    }
}

/// Read the string contents of field `key` of `v`.
fn field_text_exec(v: &serde_json::Value, key: &str) -> (r: Option<String>)
    ensures
        (match r {
            Some(s) => field_text(*v, key@) == Some(s@),
            None => field_text(*v, key@) is None,
        }),
{
    match get_field(v, key) {
        Some(f) => get_text(&f),
        None => None,
    }
}

/// Decode a `content_block_start` payload.
fn decode_start(v: &serde_json::Value) -> (e: Event)
    ensures
        e@ == start_event(*v),
{
    let cb = match get_field(v, "content_block") {
        Some(cb) => cb,
        None => {
            return Event::Ignored;
        },
    };
    let is_tool_use = match field_text_exec(&cb, "type") {
        Some(bt) => str_eq(bt.as_str(), "tool_use"),
        None => false,
    };
    if is_tool_use {
        let id = match field_text_exec(&cb, "id") {
            Some(id) => id,
            None => {
                return Event::Ignored;
            },
        };
        let name = match field_text_exec(&cb, "name") {
            Some(name) => name,
            None => {
                return Event::Ignored;
            },
        };
        Event::ToolUseStart { id, name }
    } else {
        Event::TextStart
    }
}

/// Decode a `content_block_delta` payload.
fn decode_delta(v: &serde_json::Value) -> (e: Event)
    ensures
        e@ == delta_event(*v),
{
    let d = match get_field(v, "delta") {
        Some(d) => d,
        None => {
            return Event::Ignored;
        },
    };
    match field_text_exec(&d, "text") {
        Some(text) => Event::TextDelta { text },
        None => match field_text_exec(&d, "partial_json") {
            Some(fragment) => Event::InputJsonDelta { fragment },
            None => Event::Ignored,
        },
    }
}

/// Decode a `message_delta` payload.
fn decode_message_delta(v: &serde_json::Value) -> (e: Event)
    ensures
        e@ == message_event(*v),
{
    match get_field(v, "delta") {
        Some(d) => Event::MessageDelta { stop_reason: field_text_exec(&d, "stop_reason") },
        None => Event::MessageDelta { stop_reason: None },
    }
}

/// Decode one parsed payload value into its event.
fn decode_value(v: &serde_json::Value) -> (e: Event)
    ensures
        e@ == value_event(*v),
{
    let t = match field_text_exec(v, "type") {
        Some(t) => t,
        None => {
            return Event::Ignored;
        },
    };
    if str_eq(t.as_str(), "content_block_start") {
        decode_start(v)
    } else if str_eq(t.as_str(), "content_block_delta") {
        decode_delta(v)
    } else if str_eq(t.as_str(), "content_block_stop") {
        Event::BlockStop
    } else if str_eq(t.as_str(), "message_delta") {
        decode_message_delta(v)
    } else {
        Event::Ignored
    }
}

/// Decode one raw payload string into its event.
pub fn decode_payload(data: &str) -> (e: Event)
    ensures
        e@ == payload_event(data@),
{
    match parse_json(data) {
        Some(v) => decode_value(&v),
        None => Event::Ignored,
    }
}

/// Decode one stream line into its event.
pub fn decode_line(line: &str) -> (e: Event)
    ensures
        e@ == line_event(line@),
{
    let n = line.unicode_len();
    if n < 6 {
        return Event::Ignored;
    }
    let prefix = line.substring_char(0, 6);
    if !str_eq(prefix, "data: ") {
        return Event::Ignored;
    }
    let payload = line.substring_char(6, n);
    if str_eq(payload, "[DONE]") {
        return Event::Ignored;
    }
    decode_payload(payload)
}

} // verus!
