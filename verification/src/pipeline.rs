use crate::errors::PipelineError;
use crate::history_event::HistoryEventPayload;
use crate::history_member::HistoryMember;
use vstd::prelude::*;

verus! {

/// Playback readiness of a pipeline: a forward-only progression; a fresh
/// pipeline is installed for each attempt rather than rewinding an old one.
#[derive(Debug, Clone, Copy, PartialEq, Eq, Structural)]
pub enum PipelineStatus {
    Pending,
    Running,
    CanSendAudio,
}

/// Position of a status in the forward progression.
pub open spec fn status_rank(s: PipelineStatus) -> int {
    match s {
        PipelineStatus::Pending => 0,
        PipelineStatus::Running => 1,
        PipelineStatus::CanSendAudio => 2,
    }
}

/// Where a pipeline stands in its stage sequence.
#[derive(Debug, Clone, Copy, PartialEq, Eq, Structural)]
pub enum PipelineStage {
    Transcribe,
    Reason,
    Synthesize,
    GatedSend,
    Done,
    Failed(PipelineError),
}

/// What the surrounding executor observed at a stage boundary or wait.
#[derive(Debug, Clone, Copy, PartialEq, Eq, Structural)]
pub enum PipelineEvent {
    /// The cancellation signal was found set at a boundary.
    Cancelled,
    /// The running remote stage returned success.
    StageCompleted,
    /// The running remote stage returned an error.
    StageFailed,
    /// The gated-send wait woke and read this status.
    StatusNow(PipelineStatus),
    /// The gated-send wait exceeded its bound.
    TimedOut,
}

/// What the executor must do next.
#[derive(Debug, Clone, Copy, PartialEq, Eq, Structural)]
pub enum PipelineAction {
    RunTranscribe,
    RunReason,
    RunSynthesize,
    WaitForPlayback,
    SendAudio,
    Stop,
}

/// One attempt to process an utterance: its call id, its generation, the
/// audio slice, the cooperative cancellation flag, the playback-readiness
/// status, and the transcript fragments completed stages produced.
#[derive(Debug, Clone)]
pub struct Pipeline {
    pub id: u64,
    pub generation: u64,
    pub cancelled: bool,
    pub status: PipelineStatus,
    pub stage: PipelineStage,
    pub utterance: Vec<i16>,
    pub transcripted: Vec<HistoryEventPayload>,
}

/// The stage-sequencing decision table. Remote work happens between steps;
/// each step consumes one observation and says what to run next.
///
/// Audio is released only from the gated-send stage, and only on observing
/// `CanSendAudio`; a timeout there fails the pipeline with
/// `PlaybackTimeout` instead of sending stale audio.
pub open spec fn spec_step(p: Pipeline, ev: PipelineEvent) -> (Pipeline, PipelineAction) {
    match p.stage {
        PipelineStage::Transcribe => match ev {
            PipelineEvent::Cancelled => (
                Pipeline { stage: PipelineStage::Failed(PipelineError::Cancelled), ..p },
                PipelineAction::Stop,
            ),
            PipelineEvent::StageCompleted => (
                Pipeline { stage: PipelineStage::Reason, ..p },
                PipelineAction::RunReason,
            ),
            PipelineEvent::StageFailed => (
                Pipeline { stage: PipelineStage::Failed(PipelineError::BackendFailure), ..p },
                PipelineAction::Stop,
            ),
            _ => (p, PipelineAction::Stop),
        },
        PipelineStage::Reason => match ev {
            PipelineEvent::Cancelled => (
                Pipeline { stage: PipelineStage::Failed(PipelineError::Cancelled), ..p },
                PipelineAction::Stop,
            ),
            PipelineEvent::StageCompleted => (
                Pipeline { stage: PipelineStage::Synthesize, ..p },
                PipelineAction::RunSynthesize,
            ),
            PipelineEvent::StageFailed => (
                Pipeline { stage: PipelineStage::Failed(PipelineError::BackendFailure), ..p },
                PipelineAction::Stop,
            ),
            _ => (p, PipelineAction::Stop),
        },
        PipelineStage::Synthesize => match ev {
            PipelineEvent::Cancelled => (
                Pipeline { stage: PipelineStage::Failed(PipelineError::Cancelled), ..p },
                PipelineAction::Stop,
            ),
            PipelineEvent::StageCompleted => (
                Pipeline { stage: PipelineStage::GatedSend, ..p },
                PipelineAction::WaitForPlayback,
            ),
            PipelineEvent::StageFailed => (
                Pipeline { stage: PipelineStage::Failed(PipelineError::BackendFailure), ..p },
                PipelineAction::Stop,
            ),
            _ => (p, PipelineAction::Stop),
        },
        PipelineStage::GatedSend => match ev {
            PipelineEvent::Cancelled => (
                Pipeline { stage: PipelineStage::Failed(PipelineError::Cancelled), ..p },
                PipelineAction::Stop,
            ),
            PipelineEvent::StatusNow(s) => if s is CanSendAudio {
                (Pipeline { stage: PipelineStage::Done, ..p }, PipelineAction::SendAudio)
            } else {
                (p, PipelineAction::WaitForPlayback)
            },
            PipelineEvent::TimedOut => (
                Pipeline { stage: PipelineStage::Failed(PipelineError::PlaybackTimeout), ..p },
                PipelineAction::Stop,
            ),
            _ => (p, PipelineAction::Stop),
        },
        PipelineStage::Done => (p, PipelineAction::Stop),
        PipelineStage::Failed(_) => (p, PipelineAction::Stop),
    }
}

impl Pipeline {
    pub fn new(id: u64, generation: u64, utterance: Vec<i16>) -> (r: Self)
        ensures
            r.id == id,
            r.generation == generation,
            !r.cancelled,
            r.status is Pending,
            r.stage is Transcribe,
            r.utterance == utterance,
            r.transcripted@ =~= Seq::<HistoryEventPayload>::empty(),
    {
        Pipeline {
            id,
            generation,
            cancelled: false,
            status: PipelineStatus::Pending,
            stage: PipelineStage::Transcribe,
            utterance,
            transcripted: Vec::new(),
        }
    }

    /// Sets the cooperative cancellation flag; the running stage finishes
    /// on its own schedule, only its outcome is discarded.
    pub fn cancel(&mut self)
        ensures
            *final(self) == (Pipeline { cancelled: true, ..*old(self) }),
    {
        self.cancelled = true;
    }

    /// Moves the playback-readiness status forward. The status never
    /// regresses: each attempt installs a fresh pipeline instead.
    pub fn set_status(&mut self, status: PipelineStatus)
        requires
            status_rank(old(self).status) <= status_rank(status),
        ensures
            *final(self) == (Pipeline { status, ..*old(self) }),
            status_rank(old(self).status) <= status_rank(final(self).status),
    {
        self.status = status;
    }

    /// Records the transcript fragment of a successfully completed
    /// transcription stage as a user turn.
    pub fn record_transcript(&mut self, text: Option<String>, timestamp_secs: i64)
        ensures
            final(self).transcripted@ == old(self).transcripted@.push(
                HistoryEventPayload {
                    member: HistoryMember::User,
                    content: text,
                    created_at: timestamp_secs,
                },
            ),
            final(self).id == old(self).id,
            final(self).generation == old(self).generation,
            final(self).cancelled == old(self).cancelled,
            final(self).status == old(self).status,
            final(self).stage == old(self).stage,
            final(self).utterance == old(self).utterance,
    {
        self.transcripted.push(HistoryEventPayload {
            member: HistoryMember::User,
            content: text,
            created_at: timestamp_secs,
        });
    }

    /// Consumes one observation and decides the next action, exactly as
    /// `spec_step` describes.
    pub fn step(&mut self, event: PipelineEvent) -> (action: PipelineAction)
        ensures
            *final(self) == spec_step(*old(self), event).0,
            action == spec_step(*old(self), event).1,
            action is SendAudio ==> old(self).stage is GatedSend && event == PipelineEvent::StatusNow(
                PipelineStatus::CanSendAudio,
            ),
            action is SendAudio ==> final(self).stage is Done,
            event is TimedOut && old(self).stage is GatedSend ==> final(self).stage == PipelineStage::Failed(
                PipelineError::PlaybackTimeout,
            ),
    {
        match self.stage {
            PipelineStage::Transcribe => match event {
                PipelineEvent::Cancelled => {
                    self.stage = PipelineStage::Failed(PipelineError::Cancelled);
                    PipelineAction::Stop
                },
                PipelineEvent::StageCompleted => {
                    self.stage = PipelineStage::Reason;
                    PipelineAction::RunReason
                },
                PipelineEvent::StageFailed => {
                    self.stage = PipelineStage::Failed(PipelineError::BackendFailure);
                    PipelineAction::Stop
                },
                _ => PipelineAction::Stop,
            },
            PipelineStage::Reason => match event {
                PipelineEvent::Cancelled => {
                    self.stage = PipelineStage::Failed(PipelineError::Cancelled);
                    PipelineAction::Stop
                },
                PipelineEvent::StageCompleted => {
                    self.stage = PipelineStage::Synthesize;
                    PipelineAction::RunSynthesize
                },
                PipelineEvent::StageFailed => {
                    self.stage = PipelineStage::Failed(PipelineError::BackendFailure);
                    PipelineAction::Stop
                },
                _ => PipelineAction::Stop,
            },
            PipelineStage::Synthesize => match event {
                PipelineEvent::Cancelled => {
                    self.stage = PipelineStage::Failed(PipelineError::Cancelled);
                    PipelineAction::Stop
                },
                PipelineEvent::StageCompleted => {
                    self.stage = PipelineStage::GatedSend;
                    PipelineAction::WaitForPlayback
                },
                PipelineEvent::StageFailed => {
                    self.stage = PipelineStage::Failed(PipelineError::BackendFailure);
                    PipelineAction::Stop
                },
                _ => PipelineAction::Stop,
            },
            PipelineStage::GatedSend => match event {
                PipelineEvent::Cancelled => {
                    self.stage = PipelineStage::Failed(PipelineError::Cancelled);
                    PipelineAction::Stop
                },
                PipelineEvent::StatusNow(s) => {
                    if s == PipelineStatus::CanSendAudio {
                        self.stage = PipelineStage::Done;
                        PipelineAction::SendAudio
                    } else {
                        PipelineAction::WaitForPlayback
                    }
                },
                PipelineEvent::TimedOut => {
                    self.stage = PipelineStage::Failed(PipelineError::PlaybackTimeout);
                    PipelineAction::Stop
                },
                _ => PipelineAction::Stop,
            },
            PipelineStage::Done => PipelineAction::Stop,
            PipelineStage::Failed(_) => PipelineAction::Stop,
        }
    }
}

/// The pipeline a sequence of observations leaves behind.
pub open spec fn spec_run(p: Pipeline, evs: Seq<PipelineEvent>) -> Pipeline
    decreases evs.len(),
{
    if evs.len() == 0 {
        p
    } else {
        spec_run(spec_step(p, evs[0]).0, evs.drop_first())
    }
}

/// The actions a sequence of observations produces, in order.
pub open spec fn spec_run_actions(p: Pipeline, evs: Seq<PipelineEvent>) -> Seq<PipelineAction>
    decreases evs.len(),
{
    if evs.len() == 0 {
        Seq::empty()
    } else {
        seq![spec_step(p, evs[0]).1] + spec_run_actions(spec_step(p, evs[0]).0, evs.drop_first())
    }
}

/// Gated send releases nothing without permission: however a pipeline is
/// driven, if no observation ever reads `CanSendAudio`, no `SendAudio`
/// action is produced.
pub proof fn lemma_no_send_without_permission(p: Pipeline, evs: Seq<PipelineEvent>)
    requires
        forall|i: int| 0 <= i < evs.len() ==> evs[i] != PipelineEvent::StatusNow(
            PipelineStatus::CanSendAudio,
        ),
    ensures
        forall|i: int| 0 <= i < spec_run_actions(p, evs).len() ==> spec_run_actions(p, evs)[i]
            != PipelineAction::SendAudio,
    decreases evs.len(),
{
    if evs.len() > 0 {
        let (p2, a) = spec_step(p, evs[0]);
        assert(a != PipelineAction::SendAudio);
        lemma_no_send_without_permission(p2, evs.drop_first());
        assert forall|i: int| 0 <= i < spec_run_actions(p, evs).len() implies spec_run_actions(
            p,
            evs,
        )[i] != PipelineAction::SendAudio by {
            if i > 0 {
                assert(spec_run_actions(p, evs)[i] == spec_run_actions(p2, evs.drop_first())[i - 1]);
            }
        }
    }
}

/// A pipeline whose gated-send wait only ever reads statuses short of
/// `CanSendAudio` and then times out fails with `PlaybackTimeout`, and no
/// `SendAudio` action is ever produced.
pub proof fn lemma_gated_send_timeout(p: Pipeline, evs: Seq<PipelineEvent>)
    requires
        p.stage is GatedSend,
        evs.len() >= 1,
        forall|i: int| 0 <= i < evs.len() - 1 ==> ((#[trigger] evs[i]) matches PipelineEvent::StatusNow(s)
            && !(s is CanSendAudio)),
        evs[evs.len() - 1] == PipelineEvent::TimedOut,
    ensures
        spec_run(p, evs).stage == PipelineStage::Failed(PipelineError::PlaybackTimeout),
        forall|i: int| 0 <= i < spec_run_actions(p, evs).len() ==> spec_run_actions(p, evs)[i]
            != PipelineAction::SendAudio,
    decreases evs.len(),
{
    lemma_no_send_without_permission(p, evs);
    let (p2, a) = spec_step(p, evs[0]);
    if evs.len() == 1 {
        assert(spec_run(p, evs) == spec_run(p2, evs.drop_first()));
    } else {
        assert(evs[0] matches PipelineEvent::StatusNow(s) && !(s is CanSendAudio));
        assert(p2 == p);
        assert(evs.drop_first()[evs.drop_first().len() - 1] == PipelineEvent::TimedOut);
        lemma_gated_send_timeout(p2, evs.drop_first());
    }
}

} // verus!
