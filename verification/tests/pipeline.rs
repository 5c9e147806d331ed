use amm_liquidity::pipeline::{
    ClientHelperTxResult, PipelineAction, PipelineError, PipelineEvent, SimulationOutcome,
    TransactionPipeline,
};

fn simulation_outcome() -> SimulationOutcome {
    SimulationOutcome {
        err: None,
        logs: vec!["Program log: ok".to_string()],
    }
}

#[test]
fn dry_run_skips_submission_and_never_signs() {
    let mut pipeline = TransactionPipeline::new(true);
    assert!(matches!(pipeline.next_action(), PipelineAction::BuildTransaction));
    pipeline.step(PipelineEvent::BuildSucceeded);

    assert!(matches!(pipeline.next_action(), PipelineAction::SimulateTransaction));
    pipeline.step(PipelineEvent::SimulationCompleted(Some(simulation_outcome())));

    // Submission is skipped entirely: the run is already over.
    assert!(pipeline.is_finished());
    assert!(matches!(pipeline.next_action(), PipelineAction::Report));

    let result = pipeline.into_result().unwrap();
    assert_eq!(result.simulation_result, Some(simulation_outcome()));
    assert_eq!(result.signature, None);
}

#[test]
fn dry_run_with_failed_simulation_still_reports_no_signature() {
    let mut pipeline = TransactionPipeline::new(true);
    pipeline.step(PipelineEvent::BuildSucceeded);
    pipeline.step(PipelineEvent::SimulationCompleted(None));
    assert!(pipeline.is_finished());
    let result = pipeline.into_result().unwrap();
    assert_eq!(
        result,
        ClientHelperTxResult { simulation_result: None, signature: None }
    );
}

#[test]
fn live_run_simulates_then_submits() {
    let mut pipeline = TransactionPipeline::new(false);
    pipeline.step(PipelineEvent::BuildSucceeded);
    pipeline.step(PipelineEvent::SimulationCompleted(Some(simulation_outcome())));

    assert!(!pipeline.is_finished());
    assert!(matches!(pipeline.next_action(), PipelineAction::SubmitTransaction));
    pipeline.step(PipelineEvent::SubmissionCompleted(Some("signature-1".to_string())));

    assert!(pipeline.is_finished());
    let result = pipeline.into_result().unwrap();
    assert_eq!(result.simulation_result, Some(simulation_outcome()));
    assert_eq!(result.signature, Some("signature-1".to_string()));
}

#[test]
fn simulation_failure_does_not_stop_a_live_run() {
    let mut pipeline = TransactionPipeline::new(false);
    pipeline.step(PipelineEvent::BuildSucceeded);
    pipeline.step(PipelineEvent::SimulationCompleted(None));

    // The run still proceeds to submission.
    assert!(matches!(pipeline.next_action(), PipelineAction::SubmitTransaction));
    pipeline.step(PipelineEvent::SubmissionCompleted(Some("signature-2".to_string())));
    let result = pipeline.into_result().unwrap();
    assert_eq!(result.simulation_result, None);
    assert_eq!(result.signature, Some("signature-2".to_string()));
}

#[test]
fn submission_failure_is_recorded_not_raised() {
    let mut pipeline = TransactionPipeline::new(false);
    pipeline.step(PipelineEvent::BuildSucceeded);
    pipeline.step(PipelineEvent::SimulationCompleted(Some(simulation_outcome())));
    pipeline.step(PipelineEvent::SubmissionCompleted(None));
    let result = pipeline.into_result().unwrap();
    assert_eq!(result.simulation_result, Some(simulation_outcome()));
    assert_eq!(result.signature, None);
}

#[test]
fn build_failure_aborts_the_run() {
    let mut pipeline = TransactionPipeline::new(false);
    pipeline.step(PipelineEvent::BuildFailed("no recent blockhash".to_string()));
    assert!(pipeline.is_finished());
    assert!(matches!(pipeline.next_action(), PipelineAction::Report));
    assert_eq!(
        pipeline.into_result(),
        Err(PipelineError::BuildFailed("no recent blockhash".to_string()))
    );
}
