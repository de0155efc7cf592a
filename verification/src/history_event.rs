use crate::history_member::HistoryMember;
use vstd::prelude::*;

verus! {

/// One recorded turn event: who spoke, the optional text, and the unix
/// timestamp (seconds) it was created at.
#[derive(Debug, Clone)]
pub struct HistoryEvent {
    pub member: HistoryMember,
    pub content: Option<String>,
    pub created_at: i64,
    pub is_saved: bool,
}

/// The fields a producer hands over when recording a turn event.
#[derive(Debug, Clone)]
pub struct HistoryEventPayload {
    pub member: HistoryMember,
    pub content: Option<String>,
    pub created_at: i64,
}

/// Optional texts carrying the same characters.
pub open spec fn opt_str_eq(a: Option<String>, b: Option<String>) -> bool {
    match (a, b) {
        (Option::None, Option::None) => true,
        (Option::Some(x), Option::Some(y)) => x@ == y@,
        _ => false,
    }
}

/// Events equal up to the characters of their texts.
pub open spec fn event_like(a: HistoryEvent, b: HistoryEvent) -> bool {
    &&& a.member == b.member
    &&& opt_str_eq(a.content, b.content)
    &&& a.created_at == b.created_at
    &&& a.is_saved == b.is_saved
}

/// Payloads equal up to the characters of their texts.
pub open spec fn payload_like(a: HistoryEventPayload, b: HistoryEventPayload) -> bool {
    &&& a.member == b.member
    &&& opt_str_eq(a.content, b.content)
    &&& a.created_at == b.created_at
}

impl HistoryEventPayload {
    /// A copy equal up to the characters of the text.
    pub fn duplicate(&self) -> (r: Self)
        ensures
            payload_like(r, *self),
    {
        let content = match &self.content {
            Option::Some(c) => Option::Some(c.clone()),
            Option::None => Option::None,
        };
        HistoryEventPayload { member: self.member, content, created_at: self.created_at }
    }
}

/// Copies of a transcript's payloads, pairwise equal up to the characters
/// of their texts.
pub fn clone_payloads(payloads: &Vec<HistoryEventPayload>) -> (r: Vec<HistoryEventPayload>)
    ensures
        r@.len() == payloads@.len(),
        forall|i: int| 0 <= i < payloads@.len() ==> payload_like(#[trigger] r@[i], payloads@[i]),
{
    let mut out: Vec<HistoryEventPayload> = Vec::with_capacity(payloads.len());
    let mut i: usize = 0;
    while i < payloads.len()
        invariant
            i <= payloads@.len(),
            out@.len() == i,
            forall|j: int| 0 <= j < i ==> payload_like(#[trigger] out@[j], payloads@[j]),
        decreases payloads@.len() - i,
    {
        out.push(payloads[i].duplicate());
        i += 1;
    }
    out
}

/// The event a payload turns into: system events are born saved, every
/// other member's events are not.
pub open spec fn spec_event_of(payload: HistoryEventPayload) -> HistoryEvent {
    HistoryEvent {
        member: payload.member,
        content: payload.content,
        created_at: payload.created_at,
        is_saved: payload.member is System,
    }
}

impl HistoryEvent {
    pub fn new(payload: HistoryEventPayload) -> (r: Self)
        ensures
            r == spec_event_of(payload),
    {
        let is_saved = match payload.member {
            HistoryMember::User | HistoryMember::Agent | HistoryMember::ToolCall => false,
            HistoryMember::System => true,
        };

        HistoryEvent {
            member: payload.member,
            content: payload.content,
            created_at: payload.created_at,
            is_saved,
        }
    }

    /// A copy equal up to the characters of the text.
    pub fn duplicate(&self) -> (r: Self)
        ensures
            event_like(r, *self),
    {
        let content = match &self.content {
            Option::Some(c) => Option::Some(c.clone()),
            Option::None => Option::None,
        };
        HistoryEvent {
            member: self.member,
            content,
            created_at: self.created_at,
            is_saved: self.is_saved,
        }
    }
}

} // verus!
