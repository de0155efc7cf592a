use std::collections::HashMap;
use vstd::prelude::*;

verus! {

/// Append-only per-call sample store with the voice-activity scan state:
/// a cursor over the samples already classified, and the optional `start`
/// and `end` offsets of the currently open speech segment.
///
/// `end` may only be set while `start` is set, and `start <= end <= cursor`
/// whenever both are set; the cursor never runs past the stored samples.
#[derive(Debug, Clone)]
pub struct AudioBuffer {
    pub agent: Vec<i16>,
    pub user: Vec<i16>,
    pub streamed_content: String,
    pub cursor: u64,
    pub start: Option<u64>,
    pub end: Option<u64>,
    pub events: HashMap<u64, String>,
}

impl AudioBuffer {
    /// The segment-marker and cursor invariant of the buffer.
    pub open spec fn wf(&self) -> bool {
        &&& self.cursor <= self.user@.len()
        &&& (self.start matches Some(s) ==> s <= self.cursor)
        &&& (self.end is Some ==> self.start is Some)
        &&& (self.end matches Some(e) ==> self.start matches Some(s) && s <= e && e
            <= self.cursor)
    }

    pub fn new() -> (r: AudioBuffer)
        ensures
            r.agent@ =~= Seq::<i16>::empty(),
            r.user@ =~= Seq::<i16>::empty(),
            r.streamed_content@ =~= Seq::<char>::empty(),
            r.cursor == 0,
            r.start is None,
            r.end is None,
            r.events@ =~= Map::<u64, String>::empty(),
            r.wf(),
    {
        AudioBuffer {
            agent: Vec::new(),
            user: Vec::new(),
            streamed_content: String::new(),
            cursor: 0,
            start: None,
            end: None,
            events: HashMap::new(),
        }
    }

    /// Replaces the staging area holding the latest raw transport message.
    pub fn override_streamed_buffer(&mut self, content: String)
        ensures
            final(self).streamed_content == content,
            final(self).agent == old(self).agent,
            final(self).user == old(self).user,
            final(self).cursor == old(self).cursor,
            final(self).start == old(self).start,
            final(self).end == old(self).end,
            final(self).events == old(self).events,
            old(self).wf() ==> final(self).wf(),
    {
        self.streamed_content = content;
    }

    /// Appends newly arrived PCM samples to the user channel.
    pub fn append(&mut self, samples: &[i16])
        requires
            old(self).user@.len() + samples@.len() <= usize::MAX,
        ensures
            final(self).user@ == old(self).user@ + samples@,
            final(self).agent == old(self).agent,
            final(self).streamed_content == old(self).streamed_content,
            final(self).cursor == old(self).cursor,
            final(self).start == old(self).start,
            final(self).end == old(self).end,
            final(self).events == old(self).events,
            old(self).wf() ==> final(self).wf(),
    {
        self.user.extend_from_slice(samples);
    }

    /// Copies the immutable sample range `[start, end)` of the user channel
    /// for handoff to a pipeline. The range lying within the stored samples
    /// is the caller's obligation, not a runtime error.
    pub fn slice(&self, start: u64, end: u64) -> (r: Vec<i16>)
        requires
            start <= end,
            end <= self.user@.len(),
        ensures
            r@ == self.user@.subrange(start as int, end as int),
    {
        let n: usize = self.user.len();
        proof {
            assert(end <= n);
        }
        let s = vstd::slice::slice_subrange(self.user.as_slice(), start as usize, end as usize);
        vstd::slice::slice_to_vec(s)
    }
}

} // verus!
