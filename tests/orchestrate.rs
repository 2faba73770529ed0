use video4discord::encode::{pass_one_arguments, pass_two_arguments, AVOptions, EncodePlan};
use video4discord::error::{Error, Stage};
use video4discord::orchestrate::{EncodeOrchestrator, EncodeState};

fn plan() -> EncodePlan {
    EncodePlan {
        av_options: AVOptions { audio_bitrate: 32, video_bitrate: 700, audio_codec: "aac".to_string() },
        div: 4,
        input_file: "a.mp4".to_string(),
        output_file: "a_.mp4".to_string(),
        pass_log_path: "log".to_string(),
    }
}

/// Runs the orchestration against a simulated encoder that exits as `exits` says,
/// returning the argument lists it was invoked with and the outcome.
fn simulate(exits: &[(bool, &str)]) -> (Vec<Vec<String>>, Option<Result<String, Error>>) {
    let mut o = EncodeOrchestrator::new(plan());
    let mut calls = Vec::new();
    while let Some(args) = o.next_invocation() {
        let (ok, diag) = exits[calls.len()];
        calls.push(args);
        o.record_exit(ok, diag.to_string());
    }
    (calls, o.outcome())
}

#[test]
fn pass1_failure_never_starts_pass2() {
    let (calls, outcome) = simulate(&[(false, "pass 1 broke"), (true, "")]);
    assert_eq!(calls.len(), 1);
    assert_eq!(calls[0], pass_one_arguments(&plan()));
    match outcome {
        Some(Err(Error::Encode { stage, diagnostics })) => {
            assert_eq!(stage, Stage::Pass1);
            assert_eq!(stage.name(), "pass1");
            assert_eq!(diagnostics, "pass 1 broke");
        }
        other => panic!("unexpected outcome {:?}", other),
    }
}

#[test]
fn both_passes_succeed() {
    let (calls, outcome) = simulate(&[(true, ""), (true, "")]);
    assert_eq!(calls, vec![pass_one_arguments(&plan()), pass_two_arguments(&plan())]);
    assert_eq!(outcome, Some(Ok("a_.mp4".to_string())));
}

#[test]
fn pass2_failure_is_reported() {
    let (calls, outcome) = simulate(&[(true, ""), (false, "disk full")]);
    assert_eq!(calls.len(), 2);
    assert_eq!(
        outcome,
        Some(Err(Error::Encode { stage: Stage::Pass2, diagnostics: "disk full".to_string() }))
    );
}

#[test]
fn states_follow_the_passes() {
    let mut o = EncodeOrchestrator::new(plan());
    assert_eq!(o.state, EncodeState::Idle);
    assert_eq!(o.outcome(), None);
    assert!(o.next_invocation().is_some());
    assert_eq!(o.state, EncodeState::Pass1Running);
    assert!(o.next_invocation().is_none());
    o.record_exit(true, String::new());
    assert_eq!(o.state, EncodeState::Pass1Done);
    assert_eq!(o.outcome(), None);
    assert!(o.next_invocation().is_some());
    assert_eq!(o.state, EncodeState::Pass2Running);
    o.record_exit(true, String::new());
    assert_eq!(o.state, EncodeState::Complete { output: "a_.mp4".to_string() });
    assert!(o.next_invocation().is_none());
    o.record_exit(false, "late".to_string());
    assert_eq!(o.state, EncodeState::Complete { output: "a_.mp4".to_string() });
}

#[test]
fn exit_before_start_is_ignored() {
    let mut o = EncodeOrchestrator::new(plan());
    o.record_exit(false, "stray".to_string());
    assert_eq!(o.state, EncodeState::Idle);
}
