use voicehandler::errors::PipelineError;
use voicehandler::history_member::HistoryMember;
use voicehandler::pipeline::{
    Pipeline, PipelineAction, PipelineEvent, PipelineStage, PipelineStatus,
};

#[test]
fn fresh_pipeline() {
    let p = Pipeline::new(9, 3, vec![1, 2, 3]);
    assert_eq!(p.id, 9);
    assert_eq!(p.generation, 3);
    assert!(!p.cancelled);
    assert_eq!(p.status, PipelineStatus::Pending);
    assert_eq!(p.stage, PipelineStage::Transcribe);
    assert_eq!(p.utterance, vec![1, 2, 3]);
    assert!(p.transcripted.is_empty());
}

#[test]
fn happy_path_reaches_send() {
    let mut p = Pipeline::new(1, 1, vec![]);
    assert_eq!(p.step(PipelineEvent::StageCompleted), PipelineAction::RunReason);
    assert_eq!(p.stage, PipelineStage::Reason);
    assert_eq!(p.step(PipelineEvent::StageCompleted), PipelineAction::RunSynthesize);
    assert_eq!(p.stage, PipelineStage::Synthesize);
    assert_eq!(p.step(PipelineEvent::StageCompleted), PipelineAction::WaitForPlayback);
    assert_eq!(p.stage, PipelineStage::GatedSend);
    assert_eq!(
        p.step(PipelineEvent::StatusNow(PipelineStatus::Running)),
        PipelineAction::WaitForPlayback
    );
    assert_eq!(
        p.step(PipelineEvent::StatusNow(PipelineStatus::CanSendAudio)),
        PipelineAction::SendAudio
    );
    assert_eq!(p.stage, PipelineStage::Done);
}

#[test]
fn gated_send_times_out_without_permission() {
    let mut p = Pipeline::new(1, 1, vec![]);
    p.step(PipelineEvent::StageCompleted);
    p.step(PipelineEvent::StageCompleted);
    p.step(PipelineEvent::StageCompleted);
    assert_eq!(p.stage, PipelineStage::GatedSend);

    // the wait wakes twice without permission, then the bound fires:
    // no SendAudio action is ever produced
    let mut actions = Vec::new();
    actions.push(p.step(PipelineEvent::StatusNow(PipelineStatus::Pending)));
    actions.push(p.step(PipelineEvent::StatusNow(PipelineStatus::Running)));
    actions.push(p.step(PipelineEvent::TimedOut));
    assert!(actions.iter().all(|a| *a != PipelineAction::SendAudio));
    assert_eq!(p.stage, PipelineStage::Failed(PipelineError::PlaybackTimeout));
}

#[test]
fn cancellation_aborts_each_stage() {
    for completed_stages in 0..4 {
        let mut p = Pipeline::new(1, 1, vec![]);
        for _ in 0..completed_stages {
            p.step(PipelineEvent::StageCompleted);
        }
        p.step(PipelineEvent::Cancelled);
        assert_eq!(p.stage, PipelineStage::Failed(PipelineError::Cancelled));
        // failure is absorbing
        assert_eq!(p.step(PipelineEvent::StageCompleted), PipelineAction::Stop);
        assert_eq!(p.stage, PipelineStage::Failed(PipelineError::Cancelled));
    }
}

#[test]
fn backend_failure_aborts() {
    let mut p = Pipeline::new(1, 1, vec![]);
    p.step(PipelineEvent::StageCompleted);
    p.step(PipelineEvent::StageFailed);
    assert_eq!(p.stage, PipelineStage::Failed(PipelineError::BackendFailure));
}

#[test]
fn status_moves_forward() {
    let mut p = Pipeline::new(1, 1, vec![]);
    p.set_status(PipelineStatus::Running);
    assert_eq!(p.status, PipelineStatus::Running);
    p.set_status(PipelineStatus::CanSendAudio);
    assert_eq!(p.status, PipelineStatus::CanSendAudio);
}

#[test]
fn transcript_recorded_as_user_turn() {
    let mut p = Pipeline::new(1, 1, vec![]);
    p.record_transcript(Some(String::from("bonjour")), 1704067200);
    p.record_transcript(None, 1704067260);
    assert_eq!(p.transcripted.len(), 2);
    assert_eq!(p.transcripted[0].member, HistoryMember::User);
    assert_eq!(p.transcripted[0].content.as_deref(), Some("bonjour"));
    assert_eq!(p.transcripted[0].created_at, 1704067200);
    assert_eq!(p.transcripted[1].content, None);
}

#[test]
fn cancel_sets_flag_only() {
    let mut p = Pipeline::new(1, 1, vec![5]);
    p.cancel();
    assert!(p.cancelled);
    assert_eq!(p.stage, PipelineStage::Transcribe);
    assert_eq!(p.utterance, vec![5]);
}

#[test]
fn pipeline_error_messages() {
    assert_eq!(PipelineError::PlaybackTimeout.message(), "timeout waiting for CanSendAudio");
    assert_eq!(PipelineError::BackendFailure.message(), "backend stage failed");
    assert_eq!(PipelineError::Cancelled.message(), "superseded by newer work");
}
