use crate::calendar::{
    spec_dec, spec_dec2, spec_is_leap, spec_month_name, spec_month_of, spec_weekday_name,
    spec_year_of, Calendar,
};
use crate::history_event::{event_like, spec_event_of, HistoryEvent, HistoryEventPayload};
use crate::history_member::HistoryMember;
use vstd::prelude::*;
use vstd::string::StringExecFns;

verus! {

/// A timestamp written as weekday, zero-padded day, month name and year
/// ("Monday 01 January 2024").
pub open spec fn spec_date_text(ts: int) -> Seq<char> {
    let days = ts / 86400;
    let y = spec_year_of(days, 1970).0;
    let doy = spec_year_of(days, 1970).1;
    let m = spec_month_of(doy, 1, spec_is_leap(y)).0;
    let d = spec_month_of(doy, 1, spec_is_leap(y)).1 + 1;
    spec_weekday_name((days + 4) % 7) + " "@ + spec_dec2(d) + " "@ + spec_month_name(m) + " "@
        + spec_dec(y)
}

/// A timestamp written as dd/mm/yyyy.
pub open spec fn spec_date_numeric(ts: int) -> Seq<char> {
    let days = ts / 86400;
    let y = spec_year_of(days, 1970).0;
    let doy = spec_year_of(days, 1970).1;
    let m = spec_month_of(doy, 1, spec_is_leap(y)).0;
    let d = spec_month_of(doy, 1, spec_is_leap(y)).1 + 1;
    spec_dec2(d) + "/"@ + spec_dec2(m) + "/"@ + spec_dec(y)
}

/// A time of day written as unpadded hour, "h", zero-padded minute
/// ("9h05").
pub open spec fn spec_hour_min(ts: int) -> Seq<char> {
    spec_dec((ts % 86400) / 3600) + "h"@ + spec_dec2(((ts % 86400) % 3600) / 60)
}

/// The text of the system mark that prefixes a reasoning request: the
/// current date and time, spelled out for the agent.
pub open spec fn spec_mark_content(ts: int) -> Seq<char> {
    "Voici des informations supplémentaires qui pourraient t'aider à répondre au client :"@
        + "\n- Aujourd'hui, nous sommes le : "@ + spec_date_text(ts)
        + "\n- Au format dd/mm/yyyy nous somme le "@ + spec_date_numeric(ts)
        + "\n- Il est actuellement "@ + spec_hour_min(ts)
}

/// Builds the mark text for a unix timestamp (seconds).
fn mark_content(ts: u64) -> (r: String)
    requires
        ts <= 253_402_300_799,
    ensures
        r@ == spec_mark_content(ts as int),
{
    let days = ts / 86400;
    let (y, m, d) = Calendar::civil_from_days(days);
    let w = (days + 4) % 7;
    let hour = (ts % 86400) / 3600;
    let minute = ((ts % 86400) % 3600) / 60;

    let mut s = String::from_str(
        "Voici des informations supplémentaires qui pourraient t'aider à répondre au client :",
    );
    s.append("\n- Aujourd'hui, nous sommes le : ");
    s.append(Calendar::weekday_name(w));
    s.append(" ");
    s.append(Calendar::dec2(d).as_str());
    s.append(" ");
    s.append(Calendar::month_name(m));
    s.append(" ");
    s.append(Calendar::dec_u64(y).as_str());
    s.append("\n- Au format dd/mm/yyyy nous somme le ");
    s.append(Calendar::dec2(d).as_str());
    s.append("/");
    s.append(Calendar::dec2(m).as_str());
    s.append("/");
    s.append(Calendar::dec_u64(y).as_str());
    s.append("\n- Il est actuellement ");
    s.append(Calendar::dec_u64(hour).as_str());
    s.append("h");
    s.append(Calendar::dec2(minute).as_str());
    proof {
        assert(s@ =~= spec_mark_content(ts as int));
    }
    s
}

/// The ordered, append-only record of a call's turn events.
pub struct History {
    pub events: Vec<HistoryEvent>,
}

impl History {
    pub fn new() -> (r: Self)
        ensures
            r.events@ =~= Seq::<HistoryEvent>::empty(),
    {
        History { events: Vec::new() }
    }

    /// Appends one turn event.
    pub fn add(&mut self, payload: HistoryEventPayload)
        ensures
            final(self).events@ == old(self).events@.push(spec_event_of(payload)),
    {
        let event = HistoryEvent::new(payload);
        self.events.push(event);
    }

    /// Appends the transcript fragments a completed pipeline produced, in
    /// order.
    pub fn append_payloads(&mut self, payloads: Vec<HistoryEventPayload>)
        ensures
            final(self).events@.len() == old(self).events@.len() + payloads@.len(),
            forall|i: int| 0 <= i < old(self).events@.len() ==> final(self).events@[i] == #[trigger] old(
                self,
            ).events@[i],
            forall|i: int| 0 <= i < payloads@.len() ==> final(self).events@[old(self).events@.len()
                + i] == spec_event_of(#[trigger] payloads@[i]),
    {
        let mut rest = payloads;
        let _ = rest.len();
        let ghost all = rest@;
        let ghost base = self.events@.len();
        let mut k: usize = 0;
        proof {
            assert(rest@ =~= all.subrange(0, all.len() as int));
        }
        while rest.len() > 0
            invariant
                all.len() <= usize::MAX,
                k + rest@.len() == all.len(),
                rest@ == all.subrange(k as int, all.len() as int),
                self.events@.len() == base + k,
                forall|i: int| 0 <= i < base ==> self.events@[i] == #[trigger] old(self).events@[i],
                forall|i: int| 0 <= i < k ==> self.events@[base + i] == spec_event_of(
                    #[trigger] all[i],
                ),
            decreases rest@.len(),
        {
            let p = rest.remove(0);
            proof {
                assert(p == all[k as int]);
                assert(rest@ =~= all.subrange(k + 1, all.len() as int));
            }
            let event = HistoryEvent::new(p);
            self.events.push(event);
            k += 1;
        }
    }

    /// A copy of the history prefixed with a freshly composed system mark
    /// carrying the date and time, for handing to the reasoning stage.
    pub fn create_mark(&self, timestamp_secs: i64) -> (r: Vec<HistoryEvent>)
        requires
            0 <= timestamp_secs <= 253_402_300_799,
        ensures
            r@.len() == self.events@.len() + 1,
            r@[0].member is System,
            r@[0].is_saved,
            r@[0].created_at == timestamp_secs,
            r@[0].content matches Some(c) && c@ == spec_mark_content(timestamp_secs as int),
            forall|i: int| 0 <= i < self.events@.len() ==> event_like(
                r@[i + 1],
                #[trigger] self.events@[i],
            ),
    {
        let content = mark_content(timestamp_secs as u64);

        let system_event = HistoryEvent::new(
            HistoryEventPayload {
                member: HistoryMember::System,
                content: Option::Some(content),
                created_at: timestamp_secs,
            },
        );

        let mut events: Vec<HistoryEvent> = Vec::with_capacity(self.events.len());
        events.push(system_event);
        let mut i: usize = 0;
        while i < self.events.len()
            invariant
                i <= self.events@.len(),
                events@.len() == i + 1,
                events@[0].member is System,
                events@[0].is_saved,
                events@[0].created_at == timestamp_secs,
                events@[0].content matches Some(c) && c@ == spec_mark_content(
                    timestamp_secs as int,
                ),
                forall|j: int| 0 <= j < i ==> event_like(events@[j + 1], #[trigger] self.events@[j]),
            decreases self.events@.len() - i,
        {
            events.push(self.events[i].duplicate());
            i += 1;
        }
        events
    }
}

} // verus!
