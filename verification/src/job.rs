use vstd::prelude::*;

verus! {

/// Where a queued transcription job stands.
#[derive(Debug, Clone, Copy, PartialEq, Eq, Structural)]
pub enum JobState {
    Pending,
    ReadyToSend,
    Completed,
}

/// One queued unit of audio work.
#[derive(Debug, Clone)]
pub struct Job {
    pub id: u64,
    pub state: JobState,
    pub data: Vec<i16>,
}

impl Default for Job {
    /// A fresh pending job with no audio; the host program assigns the
    /// real id.
    fn default() -> (r: Self)
        ensures
            r.id == 0,
            r.state is Pending,
            r.data@ =~= Seq::<i16>::empty(),
    {
        Job { id: 0, state: JobState::Pending, data: Vec::new() }
    }
}

} // verus!
