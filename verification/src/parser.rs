//! The stream dispatcher: one line of the child's output in, typed events out.
//!
//! The child prints newline-delimited JSON.  Every well-formed line is
//! republished raw, then dispatched on its top-level `type` member; a line
//! that does not parse is dropped without any event, so a malformed line can
//! never take the reader down or affect later lines.  Unknown discriminants,
//! at the top level and inside `stream_event`, are deliberately ignored: the
//! protocol is forward-extensible.

use vstd::prelude::*;

use crate::events::{Event, EventV};
use crate::json::{json_get, json_of, json_str, obj_field, parse_json};
use crate::text::{spec_trim, str_eq, trim};
use crate::usage::{field_u64, or_zero, spec_usage_of, TokenUsage};

verus! {

/// The string under `key` of a JSON object, if the member exists and is a
/// string.
pub open spec fn field_str(v: serde_json::Value, key: Seq<char>) -> Option<Seq<char>> {
    match obj_field(v, key) {
        Some(f) => json_str(f),
        None => None,
    }
}

/// The string under `key`, with a default for a missing or non-string member.
pub open spec fn field_str_or(v: serde_json::Value, key: Seq<char>, dflt: Seq<char>) -> Seq<char> {
    match field_str(v, key) {
        Some(s) => s,
        None => dflt,
    }
}

/// The usage-update event built from a JSON usage object: absent counters
/// are published as zero.
pub open spec fn spec_usage_event(sid: Seq<char>, u: serde_json::Value) -> EventV {
    let t = spec_usage_of(u);
    EventV::UsageUpdate {
        session_id: sid,
        input_tokens: or_zero(t.input_tokens),
        output_tokens: or_zero(t.output_tokens),
        cache_creation_input_tokens: or_zero(t.cache_creation_input_tokens),
        cache_read_input_tokens: or_zero(t.cache_read_input_tokens),
    }
}

/// Events for a `system` line: only the `compaction` subtype publishes;
/// `init` is informational and other subtypes are internal to the child.
pub open spec fn spec_system_events(sid: Seq<char>, v: serde_json::Value) -> Seq<EventV> {
    if field_str_or(v, "subtype"@, ""@) == "compaction"@ {
        seq![EventV::Compaction { session_id: sid }]
    } else {
        Seq::empty()
    }
}

/// Events for the inner payload of a `stream_event` line.
pub open spec fn spec_stream_events(sid: Seq<char>, inner: serde_json::Value) -> Seq<EventV> {
    let t = field_str_or(inner, "type"@, ""@);
    if t == "content_block_start"@ {
        match obj_field(inner, "content_block"@) {
            Some(cb) => if field_str_or(cb, "type"@, ""@) == "tool_use"@ {
                seq![
                    EventV::ToolStart {
                        session_id: sid,
                        tool_name: field_str_or(cb, "name"@, "unknown"@),
                        tool_id: field_str_or(cb, "id"@, ""@),
                    },
                ]
            } else {
                Seq::empty()
            },
            None => Seq::empty(),
        }
    } else if t == "content_block_delta"@ {
        match obj_field(inner, "delta"@) {
            Some(d) => {
                let dt = field_str_or(d, "type"@, ""@);
                if dt == "text_delta"@ {
                    match field_str(d, "text"@) {
                        Some(text) => seq![EventV::TextDelta { session_id: sid, text }],
                        None => Seq::empty(),
                    }
                } else if dt == "input_json_delta"@ {
                    match field_str(d, "partial_json"@) {
                        Some(partial_json) => seq![
                            EventV::ToolInputDelta { session_id: sid, partial_json },
                        ],
                        None => Seq::empty(),
                    }
                } else {
                    Seq::empty()
                }
            },
            None => Seq::empty(),
        }
    } else if t == "message_delta"@ {
        match obj_field(inner, "usage"@) {
            Some(u) => seq![spec_usage_event(sid, u)],
            None => Seq::empty(),
        }
    } else if t == "message_stop"@ {
        seq![EventV::MessageComplete { session_id: sid }]
    } else {
        // message_start and content_block_stop are informational; anything
        // else is an addition this dispatcher does not know yet.
        Seq::empty()
    }
}

/// Events for a `result` line: the cumulative usage, if reported, then the
/// completion of the turn.
pub open spec fn spec_result_events(sid: Seq<char>, v: serde_json::Value) -> Seq<EventV> {
    let usage = match obj_field(v, "usage"@) {
        Some(u) => seq![spec_usage_event(sid, u)],
        None => Seq::<EventV>::empty(),
    };
    usage + seq![EventV::MessageComplete { session_id: sid }]
}

/// Dispatch on the top-level discriminant of one parsed line.  A complete
/// `assistant` message publishes nothing: the deltas already covered it.
pub open spec fn spec_dispatch(sid: Seq<char>, v: serde_json::Value) -> Seq<EventV> {
    let t = field_str_or(v, "type"@, ""@);
    if t == "stream_event"@ {
        match obj_field(v, "event"@) {
            Some(inner) => spec_stream_events(sid, inner),
            None => Seq::empty(),
        }
    } else if t == "system"@ {
        spec_system_events(sid, v)
    } else if t == "result"@ {
        spec_result_events(sid, v)
    } else {
        Seq::empty()
    }
}

/// All events one raw line gives rise to: nothing for a blank or malformed
/// line, else the raw passthrough followed by the dispatched events.
pub open spec fn spec_events_of_line(sid: Seq<char>, line: Seq<char>) -> Seq<EventV> {
    let t = spec_trim(line);
    if t.len() == 0 {
        Seq::empty()
    } else {
        match json_of(t) {
            Some(v) => seq![EventV::StreamEvent { session_id: sid, payload: t }] + spec_dispatch(
                sid,
                v,
            ),
            None => Seq::empty(),
        }
    }
}

pub(crate) fn get_str(v: &serde_json::Value, key: &str) -> (r: Option<String>)
    ensures
        match r {
            Some(s) => field_str(*v, key@) == Some(s@),
            None => field_str(*v, key@) is None,
        },
{
    match json_get(v, key) {
        Some(f) => crate::json::json_as_str(f),
        None => None,
    }
}

fn get_str_or(v: &serde_json::Value, key: &str, dflt: &str) -> (r: String)
    ensures
        r@ == field_str_or(*v, key@, dflt@),
{
    match get_str(v, key) {
        Some(s) => s,
        None => dflt.to_owned(),
    }
}

fn usage_event(session_id: &str, u: &serde_json::Value) -> (r: Event)
    ensures
        r@ == spec_usage_event(session_id@, *u),
{
    let t = TokenUsage::from_json(u);
    Event::UsageUpdate {
        session_id: session_id.to_owned(),
        input_tokens: match t.input_tokens {
            Some(n) => n,
            None => 0,
        },
        output_tokens: match t.output_tokens {
            Some(n) => n,
            None => 0,
        },
        cache_creation_input_tokens: match t.cache_creation_input_tokens {
            Some(n) => n,
            None => 0,
        },
        cache_read_input_tokens: match t.cache_read_input_tokens {
            Some(n) => n,
            None => 0,
        },
    }
}

/// Decodes the newline-delimited JSON stream of the child process.  The
/// dispatcher is stateless: every line is self-contained.
pub struct StreamParser {}

impl StreamParser {
    pub fn new() -> (r: Self) {
        StreamParser {  }
    }

    /// Turn one raw output line into the events it publishes.
    pub fn parse_line(&self, session_id: &str, line: &str) -> (r: Vec<Event>)
        ensures
            r.deep_view() == spec_events_of_line(session_id@, line@),
    {
        let t = trim(line);
        let mut out: Vec<Event> = Vec::new();
        if t.is_empty() {
            proof {
                assert(out.deep_view() =~~= spec_events_of_line(session_id@, line@));
            }
            return out;
        }
        let v = match parse_json(t) {
            Some(v) => v,
            None => {
                proof {
                    assert(out.deep_view() =~~= spec_events_of_line(session_id@, line@));
                }
                return out;
            },
        };
        out.push(
            Event::StreamEvent { session_id: session_id.to_owned(), payload: t.to_owned() },
        );
        let ty = get_str_or(&v, "type", "");
        if str_eq(ty.as_str(), "stream_event") {
            match json_get(&v, "event") {
                Some(inner) => self.handle_stream_event(session_id, inner, &mut out),
                None => {},
            }
        } else if str_eq(ty.as_str(), "system") {
            self.handle_system_event(session_id, &v, &mut out);
        } else if str_eq(ty.as_str(), "result") {
            self.handle_result_event(session_id, &v, &mut out);
        }
        proof {
            assert(out.deep_view() =~~= spec_events_of_line(session_id@, line@));
        }
        out
    }

    /// Events of a `system` line.
    fn handle_system_event(
        &self,
        session_id: &str,
        v: &serde_json::Value,
        out: &mut Vec<Event>,
    )
        ensures
            final(out).deep_view() == old(out).deep_view() + spec_system_events(session_id@, *v),
    {
        let subtype = get_str_or(v, "subtype", "");
        if str_eq(subtype.as_str(), "compaction") {
            out.push(Event::Compaction { session_id: session_id.to_owned() });
            proof {
                assert(out.deep_view() =~~= old(out).deep_view() + spec_system_events(
                    session_id@,
                    *v,
                ));
            }
        } else {
            proof {
                assert(out.deep_view() =~~= old(out).deep_view() + spec_system_events(
                    session_id@,
                    *v,
                ));
            }
        }
    }

    /// Events of the inner payload of a `stream_event` line.
    fn handle_stream_event(
        &self,
        session_id: &str,
        inner: &serde_json::Value,
        out: &mut Vec<Event>,
    )
        ensures
            final(out).deep_view() == old(out).deep_view() + spec_stream_events(
                session_id@,
                *inner,
            ),
    {
        let ghost pre = out.deep_view();
        let ty = get_str_or(inner, "type", "");
        if str_eq(ty.as_str(), "content_block_start") {
            match json_get(inner, "content_block") {
                Some(cb) => {
                    let block_type = get_str_or(cb, "type", "");
                    if str_eq(block_type.as_str(), "tool_use") {
                        let tool_name = get_str_or(cb, "name", "unknown");
                        let tool_id = get_str_or(cb, "id", "");
                        out.push(
                            Event::ToolStart {
                                session_id: session_id.to_owned(),
                                tool_name,
                                tool_id,
                            },
                        );
                    }
                },
                None => {},
            }
        } else if str_eq(ty.as_str(), "content_block_delta") {
            match json_get(inner, "delta") {
                Some(d) => {
                    let dt = get_str_or(d, "type", "");
                    if str_eq(dt.as_str(), "text_delta") {
                        match get_str(d, "text") {
                            Some(text) => {
                                out.push(
                                    Event::TextDelta {
                                        session_id: session_id.to_owned(),
                                        text,
                                    },
                                );
                            },
                            None => {},
                        }
                    } else if str_eq(dt.as_str(), "input_json_delta") {
                        match get_str(d, "partial_json") {
                            Some(partial_json) => {
                                out.push(
                                    Event::ToolInputDelta {
                                        session_id: session_id.to_owned(),
                                        partial_json,
                                    },
                                );
                            },
                            None => {},
                        }
                    }
                },
                None => {},
            }
        } else if str_eq(ty.as_str(), "message_delta") {
            match json_get(inner, "usage") {
                Some(u) => {
                    let ev = usage_event(session_id, u);
                    out.push(ev);
                },
                None => {},
            }
        } else if str_eq(ty.as_str(), "message_stop") {
            out.push(Event::MessageComplete { session_id: session_id.to_owned() });
        }
        proof {
            assert(out.deep_view() =~~= pre + spec_stream_events(session_id@, *inner));
        }
    }

    /// Events of a `result` line.
    fn handle_result_event(
        &self,
        session_id: &str,
        v: &serde_json::Value,
        out: &mut Vec<Event>,
    )
        ensures
            final(out).deep_view() == old(out).deep_view() + spec_result_events(session_id@, *v),
    {
        let ghost pre = out.deep_view();
        match json_get(v, "usage") {
            Some(u) => {
                let ev = usage_event(session_id, u);
                out.push(ev);
            },
            None => {},
        }
        out.push(Event::MessageComplete { session_id: session_id.to_owned() });
        proof {
            assert(out.deep_view() =~~= pre + spec_result_events(session_id@, *v));
        }
    }
}

} // verus!
