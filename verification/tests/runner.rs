use matchmaker::runner::{OutOfTurn, Phase, RunnerAction, RunnerEvent};
use matchmaker::{Intent, MatchOutcome, MatchmakerMessage, Runner};
use tokio::sync::mpsc::error::TryRecvError;

fn intent(id: &str) -> Intent {
    Intent { id: id.as_bytes().to_vec(), data: vec![0xd0, 0xd1] }
}

fn apply(id: &str) -> RunnerEvent {
    RunnerEvent::Message(MatchmakerMessage::ApplyIntent(intent(id)))
}

fn no_match() -> MatchOutcome {
    MatchOutcome { transaction_payload: None, matched_intent_ids: None }
}

fn outcome(tag: u8) -> MatchOutcome {
    MatchOutcome {
        transaction_payload: Some(vec![tag]),
        matched_intent_ids: Some(vec![vec![tag, tag]]),
    }
}

#[test]
fn new_runner_is_constructing() {
    let (runner, _handler) = Runner::new_pair(vec![1], vec![2]);
    assert_eq!(runner.phase(), Phase::Constructing);
}

#[test]
fn construction_leads_to_listening() {
    let (mut runner, _handler) = Runner::new_pair(vec![], vec![]);
    assert_eq!(runner.listen(RunnerEvent::Constructed), Ok(RunnerAction::Receive));
    assert_eq!(runner.phase(), Phase::Listening);
}

#[test]
fn message_is_dispatched_with_its_intent_unchanged() {
    let (mut runner, _handler) = Runner::new_pair(vec![], vec![]);
    runner.listen(RunnerEvent::Constructed).unwrap();
    assert_eq!(runner.listen(apply("X")), Ok(RunnerAction::AddIntent(intent("X"))));
    assert_eq!(runner.phase(), Phase::Dispatching);
}

#[test]
fn outcome_is_forwarded_and_the_loop_goes_on() {
    let (mut runner, mut handler) = Runner::new_pair(vec![], vec![]);
    runner.listen(RunnerEvent::Constructed).unwrap();
    runner.listen(apply("X")).unwrap();
    assert!(matches!(handler.result_recv.try_recv(), Err(TryRecvError::Empty)));
    assert_eq!(runner.listen(RunnerEvent::Outcome(outcome(3))), Ok(RunnerAction::Receive));
    assert_eq!(runner.phase(), Phase::Listening);
    assert_eq!(handler.result_recv.try_recv(), Ok(outcome(3)));
    assert!(matches!(handler.result_recv.try_recv(), Err(TryRecvError::Empty)));
}

#[test]
fn one_outcome_per_intent_in_arrival_order() {
    let (mut runner, mut handler) = Runner::new_pair(vec![], vec![]);
    runner.listen(RunnerEvent::Constructed).unwrap();
    for tag in 0..20u8 {
        let id = format!("intent-{}", tag);
        assert_eq!(runner.listen(apply(&id)), Ok(RunnerAction::AddIntent(intent(&id))));
        assert_eq!(runner.listen(RunnerEvent::Outcome(outcome(tag))), Ok(RunnerAction::Receive));
    }
    for tag in 0..20u8 {
        assert_eq!(handler.result_recv.try_recv(), Ok(outcome(tag)));
    }
    assert!(matches!(handler.result_recv.try_recv(), Err(TryRecvError::Empty)));
}

#[test]
fn no_match_is_forwarded_like_any_other_outcome() {
    let (mut runner, mut handler) = Runner::new_pair(vec![], vec![]);
    runner.listen(RunnerEvent::Constructed).unwrap();
    runner.listen(apply("A")).unwrap();
    assert_eq!(runner.listen(RunnerEvent::Outcome(no_match())), Ok(RunnerAction::Receive));
    assert_eq!(handler.result_recv.try_recv(), Ok(no_match()));
}

#[test]
fn stream_that_ends_before_any_intent_still_destroys_the_algorithm() {
    let (mut runner, mut handler) = Runner::new_pair(vec![], vec![]);
    assert_eq!(runner.listen(RunnerEvent::Constructed), Ok(RunnerAction::Receive));
    assert_eq!(runner.listen(RunnerEvent::StreamEnded), Ok(RunnerAction::Destroy));
    assert_eq!(runner.phase(), Phase::Terminating);
    drop(runner);
    assert!(matches!(handler.result_recv.try_recv(), Err(TryRecvError::Disconnected)));
}

#[test]
fn stream_that_ends_after_intents_destroys_the_algorithm_once() {
    let (mut runner, _handler) = Runner::new_pair(vec![], vec![]);
    runner.listen(RunnerEvent::Constructed).unwrap();
    runner.listen(apply("A")).unwrap();
    runner.listen(RunnerEvent::Outcome(outcome(1))).unwrap();
    assert_eq!(runner.listen(RunnerEvent::StreamEnded), Ok(RunnerAction::Destroy));
    assert_eq!(runner.listen(RunnerEvent::StreamEnded), Err(OutOfTurn));
    assert_eq!(runner.phase(), Phase::Terminating);
}

#[test]
fn pipeline_that_is_gone_ends_the_loop() {
    let (mut runner, handler) = Runner::new_pair(vec![], vec![]);
    runner.listen(RunnerEvent::Constructed).unwrap();
    runner.listen(apply("A")).unwrap();
    drop(handler);
    assert_eq!(runner.listen(RunnerEvent::Outcome(outcome(1))), Ok(RunnerAction::Destroy));
    assert_eq!(runner.phase(), Phase::Terminating);
}

#[test]
fn closed_receiver_ends_the_loop() {
    let (mut runner, mut handler) = Runner::new_pair(vec![], vec![]);
    runner.listen(RunnerEvent::Constructed).unwrap();
    runner.listen(apply("A")).unwrap();
    runner.listen(RunnerEvent::Outcome(outcome(1))).unwrap();
    runner.listen(apply("B")).unwrap();
    handler.result_recv.close();
    assert_eq!(runner.listen(RunnerEvent::Outcome(outcome(2))), Ok(RunnerAction::Destroy));
    assert_eq!(handler.result_recv.try_recv(), Ok(outcome(1)));
    assert!(matches!(handler.result_recv.try_recv(), Err(TryRecvError::Disconnected)));
}

#[test]
fn after_handoff_goes_on_when_delivered_and_ends_when_not() {
    assert_eq!(Runner::after_handoff(true), (Phase::Listening, RunnerAction::Receive));
    assert_eq!(Runner::after_handoff(false), (Phase::Terminating, RunnerAction::Destroy));
}

#[test]
fn constructing_refuses_everything_but_construction() {
    let (mut runner, mut handler) = Runner::new_pair(vec![], vec![]);
    assert_eq!(runner.listen(apply("A")), Err(OutOfTurn));
    assert_eq!(runner.listen(RunnerEvent::StreamEnded), Err(OutOfTurn));
    assert_eq!(runner.listen(RunnerEvent::Outcome(outcome(1))), Err(OutOfTurn));
    assert_eq!(runner.phase(), Phase::Constructing);
    assert!(matches!(handler.result_recv.try_recv(), Err(TryRecvError::Empty)));
}

#[test]
fn listening_refuses_construction_and_outcomes() {
    let (mut runner, mut handler) = Runner::new_pair(vec![], vec![]);
    runner.listen(RunnerEvent::Constructed).unwrap();
    assert_eq!(runner.listen(RunnerEvent::Constructed), Err(OutOfTurn));
    assert_eq!(runner.listen(RunnerEvent::Outcome(outcome(1))), Err(OutOfTurn));
    assert_eq!(runner.phase(), Phase::Listening);
    assert!(matches!(handler.result_recv.try_recv(), Err(TryRecvError::Empty)));
}

#[test]
fn dispatching_refuses_everything_but_the_outcome() {
    let (mut runner, _handler) = Runner::new_pair(vec![], vec![]);
    runner.listen(RunnerEvent::Constructed).unwrap();
    runner.listen(apply("A")).unwrap();
    assert_eq!(runner.listen(RunnerEvent::Constructed), Err(OutOfTurn));
    assert_eq!(runner.listen(apply("B")), Err(OutOfTurn));
    assert_eq!(runner.listen(RunnerEvent::StreamEnded), Err(OutOfTurn));
    assert_eq!(runner.phase(), Phase::Dispatching);
}

#[test]
fn terminating_refuses_everything() {
    let (mut runner, mut handler) = Runner::new_pair(vec![], vec![]);
    runner.listen(RunnerEvent::Constructed).unwrap();
    runner.listen(RunnerEvent::StreamEnded).unwrap();
    assert_eq!(runner.listen(RunnerEvent::Constructed), Err(OutOfTurn));
    assert_eq!(runner.listen(apply("A")), Err(OutOfTurn));
    assert_eq!(runner.listen(RunnerEvent::Outcome(outcome(1))), Err(OutOfTurn));
    assert_eq!(runner.listen(RunnerEvent::StreamEnded), Err(OutOfTurn));
    assert_eq!(runner.phase(), Phase::Terminating);
    assert!(matches!(handler.result_recv.try_recv(), Err(TryRecvError::Empty)));
}
