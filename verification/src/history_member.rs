use vstd::prelude::*;
use vstd::string::StringExecFns;

verus! {

/// Who produced a turn event.
#[derive(Debug, Clone, Copy, PartialEq, Eq, Structural)]
pub enum HistoryMember {
    User,
    Agent,
    System,
    ToolCall,
}

/// The member names the wire protocol uses.
pub open spec fn spec_valid_member_name(s: Seq<char>) -> bool {
    ||| s == "user"@
    ||| s == "agent"@
    ||| s == "system"@
    ||| s == "tool_call"@
}

impl HistoryMember {
    /// Parses a wire-protocol member name. Any other name is a protocol
    /// violation and is excluded up front rather than tolerated.
    pub fn from(value: String) -> (r: HistoryMember)
        requires
            spec_valid_member_name(value@),
        ensures
            value@ == "user"@ ==> r is User,
            value@ == "agent"@ ==> r is Agent,
            value@ == "system"@ ==> r is System,
            value@ == "tool_call"@ ==> r is ToolCall,
    {
        proof {
            reveal_strlit("user");
            reveal_strlit("agent");
            reveal_strlit("system");
            reveal_strlit("tool_call");
            assert("user"@.len() == 4);
            assert("agent"@.len() == 5);
            assert("system"@.len() == 6);
            assert("tool_call"@.len() == 9);
        }
        if value == String::from_str("user") {
            HistoryMember::User
        } else if value == String::from_str("agent") {
            HistoryMember::Agent
        } else if value == String::from_str("system") {
            HistoryMember::System
        } else {
            HistoryMember::ToolCall
        }
    }

    /// The wire-protocol name of this member.
    pub fn as_str(&self) -> (r: &'static str)
        ensures
            self is User ==> r@ == "user"@,
            self is Agent ==> r@ == "agent"@,
            self is System ==> r@ == "system"@,
            self is ToolCall ==> r@ == "tool_call"@,
    {
        match self {
            HistoryMember::User => "user",
            HistoryMember::Agent => "agent",
            HistoryMember::System => "system",
            HistoryMember::ToolCall => "tool_call",
        }
    }
}

} // verus!
