use crate::history_event::HistoryEvent;
use crate::history_member::HistoryMember;
use vstd::prelude::*;

verus! {

/// What the reasoning port hands back; the response content reaches the
/// caller as a side effect of the adapter.
#[derive(Clone)]
pub struct LlmProcessResponse {}

/// The role a history member maps to in a reasoning-stage request.
#[derive(Debug, Clone, Copy, PartialEq, Eq, Structural)]
pub enum ChatRole {
    User,
    Assistant,
    System,
    Tool,
}

/// One reasoning-stage request message.
#[derive(Debug, Clone)]
pub struct ChatMessage {
    pub role: ChatRole,
    pub content: String,
}

/// How each history member speaks in a reasoning request.
pub open spec fn spec_role_of(m: HistoryMember) -> ChatRole {
    match m {
        HistoryMember::User => ChatRole::User,
        HistoryMember::Agent => ChatRole::Assistant,
        HistoryMember::ToolCall => ChatRole::Tool,
        HistoryMember::System => ChatRole::System,
    }
}

/// The text a history event contributes: its content, or empty.
pub open spec fn spec_content_of(c: Option<String>) -> Seq<char> {
    match c {
        Option::Some(s) => s@,
        Option::None => Seq::empty(),
    }
}

/// Builds the reasoning-stage request from the accumulated history: one
/// message per event, in order, with the member mapped to its role and a
/// missing text sent as the empty string.
pub fn prepare_chat_messages(events: &Vec<HistoryEvent>) -> (r: Vec<ChatMessage>)
    ensures
        r@.len() == events@.len(),
        forall|i: int| 0 <= i < events@.len() ==> {
            &&& (#[trigger] r@[i]).role == spec_role_of(events@[i].member)
            &&& r@[i].content@ == spec_content_of(events@[i].content)
        },
{
    let mut out: Vec<ChatMessage> = Vec::with_capacity(events.len());
    let mut i: usize = 0;
    while i < events.len()
        invariant
            i <= events@.len(),
            out@.len() == i,
            forall|j: int| 0 <= j < i ==> {
                &&& (#[trigger] out@[j]).role == spec_role_of(events@[j].member)
                &&& out@[j].content@ == spec_content_of(events@[j].content)
            },
        decreases events@.len() - i,
    {
        let role = match events[i].member {
            HistoryMember::User => ChatRole::User,
            HistoryMember::Agent => ChatRole::Assistant,
            HistoryMember::ToolCall => ChatRole::Tool,
            HistoryMember::System => ChatRole::System,
        };
        let content = match &events[i].content {
            Option::Some(c) => c.clone(),
            Option::None => String::new(),
        };
        out.push(ChatMessage { role, content });
        i += 1;
    }
    out
}

} // verus!
