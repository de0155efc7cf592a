use crate::job::{Job, JobState};
use std::collections::HashMap;
use vstd::prelude::*;

verus! {

broadcast use vstd::std_specs::hash::group_hash_axioms;

/// A registry of queued transcription jobs, keyed by call id.
pub struct Pool {
    pub jobs: HashMap<u64, Job>,
}

impl Pool {
    pub fn new() -> (r: Self)
        ensures
            r.jobs@ =~= Map::<u64, Job>::empty(),
    {
        Pool { jobs: HashMap::new() }
    }

    /// Queues the audio of `id` as a fresh pending job, replacing any job
    /// the id already had.
    pub fn compute(&mut self, id: u64, bytes: Vec<i16>)
        ensures
            final(self).jobs@ == old(self).jobs@.insert(
                id,
                (Job { id, state: JobState::Pending, data: bytes }),
            ),
    {
        self.jobs.insert(id, Job { id, state: JobState::Pending, data: bytes });
    }
}

} // verus!
