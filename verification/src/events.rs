//! Typed events published to listeners.
//!
//! Publication is fire-and-forget: the manager and the dispatcher return the
//! events an operation gives rise to, and the surrounding runtime forwards
//! them to whatever transport it has.  Each variant carries plain values
//! only, so a test double can record and compare them directly.

use vstd::prelude::*;

use crate::status::ProcessStatus;

verus! {

/// Mathematical image of an [`Event`]: the same variants over sequences.
pub enum EventV {
    /// Raw passthrough of one well-formed output line.
    StreamEvent { session_id: Seq<char>, payload: Seq<char> },
    /// The externally assigned conversation identifier became known.
    ConversationIdResolved { session_id: Seq<char>, external_id: Seq<char> },
    /// The session's process status changed.
    SessionStatus { session_id: Seq<char>, status: ProcessStatus },
    /// The assistant started invoking a tool.
    ToolStart { session_id: Seq<char>, tool_name: Seq<char>, tool_id: Seq<char> },
    /// An incremental piece of assistant text.
    TextDelta { session_id: Seq<char>, text: Seq<char> },
    /// An incremental piece of a tool invocation's input.
    ToolInputDelta { session_id: Seq<char>, partial_json: Seq<char> },
    /// The current assistant message is complete.
    MessageComplete { session_id: Seq<char> },
    /// Cumulative or incremental token usage counters.
    UsageUpdate {
        session_id: Seq<char>,
        input_tokens: u64,
        output_tokens: u64,
        cache_creation_input_tokens: u64,
        cache_read_input_tokens: u64,
    },
    /// The agent compacted its conversation context.
    Compaction { session_id: Seq<char> },
    /// One raw line of the child's standard error.
    StderrLine { session_id: Seq<char>, text: Seq<char> },
}

/// One published event.
#[derive(Debug, Clone, PartialEq)]
pub enum Event {
    StreamEvent { session_id: String, payload: String },
    ConversationIdResolved { session_id: String, external_id: String },
    SessionStatus { session_id: String, status: ProcessStatus },
    ToolStart { session_id: String, tool_name: String, tool_id: String },
    TextDelta { session_id: String, text: String },
    ToolInputDelta { session_id: String, partial_json: String },
    MessageComplete { session_id: String },
    UsageUpdate {
        session_id: String,
        input_tokens: u64,
        output_tokens: u64,
        cache_creation_input_tokens: u64,
        cache_read_input_tokens: u64,
    },
    Compaction { session_id: String },
    StderrLine { session_id: String, text: String },
}

impl View for Event {
    type V = EventV;

    open spec fn view(&self) -> EventV {
        match self {
            Event::StreamEvent { session_id, payload } => EventV::StreamEvent {
                session_id: session_id@,
                payload: payload@,
            },
            Event::ConversationIdResolved { session_id, external_id } => {
                EventV::ConversationIdResolved {
                    session_id: session_id@,
                    external_id: external_id@,
                }
            },
            Event::SessionStatus { session_id, status } => EventV::SessionStatus {
                session_id: session_id@,
                status: *status,
            },
            Event::ToolStart { session_id, tool_name, tool_id } => EventV::ToolStart {
                session_id: session_id@,
                tool_name: tool_name@,
                tool_id: tool_id@,
            },
            Event::TextDelta { session_id, text } => EventV::TextDelta {
                session_id: session_id@,
                text: text@,
            },
            Event::ToolInputDelta { session_id, partial_json } => EventV::ToolInputDelta {
                session_id: session_id@,
                partial_json: partial_json@,
            },
            Event::MessageComplete { session_id } => EventV::MessageComplete {
                session_id: session_id@,
            },
            Event::UsageUpdate {
                session_id,
                input_tokens,
                output_tokens,
                cache_creation_input_tokens,
                cache_read_input_tokens,
            } => EventV::UsageUpdate {
                session_id: session_id@,
                input_tokens: *input_tokens,
                output_tokens: *output_tokens,
                cache_creation_input_tokens: *cache_creation_input_tokens,
                cache_read_input_tokens: *cache_read_input_tokens,
            },
            Event::Compaction { session_id } => EventV::Compaction { session_id: session_id@ },
            Event::StderrLine { session_id, text } => EventV::StderrLine {
                session_id: session_id@,
                text: text@,
            },
        }
    }
}

impl DeepView for Event {
    type V = EventV;

    open spec fn deep_view(&self) -> EventV {
        self.view()
    }
}

impl EventV {
    /// The channel name an event of this variant is published under.
    pub open spec fn spec_channel(self) -> Seq<char> {
        match self {
            EventV::StreamEvent { .. } => "agent:stream_event"@,
            EventV::ConversationIdResolved { .. } => "agent:session_id_resolved"@,
            EventV::SessionStatus { .. } => "agent:session_status"@,
            EventV::ToolStart { .. } => "agent:tool_start"@,
            EventV::TextDelta { .. } => "agent:text_delta"@,
            EventV::ToolInputDelta { .. } => "agent:tool_input_delta"@,
            EventV::MessageComplete { .. } => "agent:message_complete"@,
            EventV::UsageUpdate { .. } => "agent:usage_update"@,
            EventV::Compaction { .. } => "agent:compaction"@,
            EventV::StderrLine { .. } => "agent:stderr"@,
        }
    }
}

impl Event {
    /// The channel name this event is published under.
    pub fn channel(&self) -> (r: String)
        ensures
            r@ == self@.spec_channel(),
    {
        match self {
            Event::StreamEvent { .. } => String::from_str("agent:stream_event"),
            Event::ConversationIdResolved { .. } => String::from_str("agent:session_id_resolved"),
            Event::SessionStatus { .. } => String::from_str("agent:session_status"),
            Event::ToolStart { .. } => String::from_str("agent:tool_start"),
            Event::TextDelta { .. } => String::from_str("agent:text_delta"),
            Event::ToolInputDelta { .. } => String::from_str("agent:tool_input_delta"),
            Event::MessageComplete { .. } => String::from_str("agent:message_complete"),
            Event::UsageUpdate { .. } => String::from_str("agent:usage_update"),
            Event::Compaction { .. } => String::from_str("agent:compaction"),
            Event::StderrLine { .. } => String::from_str("agent:stderr"),
        }
    }
}

} // verus!
