//! The matching loop: the state machine that owns the matching algorithm's
//! lifetime and forwards every outcome to the result pipeline.
//!
//! The loop itself does blocking work that lives outside this crate: it
//! loads the algorithm, waits for the gossip network, and calls into the
//! algorithm. The [`Runner`] decides. Its driver performs what the runner
//! asked for last, reports what came of it with [`Runner::listen`], and is
//! told what to do next:
//!
//! | phase          | the driver                         | reports                     |
//! |----------------|------------------------------------|-----------------------------|
//! | `Constructing` | loads and constructs the algorithm | `Constructed`               |
//! | `Listening`    | waits for the next message         | `Message` or `StreamEnded`  |
//! | `Dispatching`  | hands the intent to the algorithm  | `Outcome`                   |
//! | `Terminating`  | destroys the algorithm and leaves  | nothing more                |
//!
//! An event that the current phase does not wait for is refused and changes
//! nothing. An outcome is sent into the handoff channel by the runner
//! itself; what the channel took from it is part of the runner's value.

use crate::message::{Intent, IntentView, MatchOutcome, MatchOutcomeView, MatchmakerMessage,
    MatchmakerMessageView};
use crate::channel::Handoff;
use crate::result_handler::{HandlerView, ResultHandler, StageView};
use vstd::prelude::*;

verus! {

/// Where the matching loop stands.
#[derive(Clone, Copy, Debug, PartialEq, Eq, Structural)]
pub enum Phase {
    /// The algorithm has not been constructed yet.
    Constructing,
    /// The algorithm is live and the loop waits for a message.
    Listening,
    /// The algorithm is live and works on an intent.
    Dispatching,
    /// The loop is over; the algorithm is destroyed on the way out.
    Terminating,
}

/// What the driver reports to the runner.
#[derive(Clone, Debug, PartialEq, Eq)]
pub enum RunnerEvent {
    /// The algorithm was loaded and its instance constructed.
    Constructed,
    /// The gossip network delivered a message.
    Message(MatchmakerMessage),
    /// The gossip network's stream of messages is over.
    StreamEnded,
    /// The algorithm answered for the intent it was given.
    Outcome(MatchOutcome),
}

/// The mathematical value of a [`RunnerEvent`].
pub enum RunnerEventView {
    Constructed,
    Message(MatchmakerMessageView),
    StreamEnded,
    Outcome(MatchOutcomeView),
}

impl View for RunnerEvent {
    type V = RunnerEventView;

    open spec fn view(&self) -> RunnerEventView {
        match self {
            RunnerEvent::Constructed => RunnerEventView::Constructed,
            RunnerEvent::Message(message) => RunnerEventView::Message(message@),
            RunnerEvent::StreamEnded => RunnerEventView::StreamEnded,
            RunnerEvent::Outcome(outcome) => RunnerEventView::Outcome(outcome@),
        }
    }
}

/// What the runner asks its driver to do next.
#[derive(Clone, Debug, PartialEq, Eq)]
pub enum RunnerAction {
    /// Wait for the next message from the gossip network.
    Receive,
    /// Hand this intent to the algorithm.
    AddIntent(Intent),
    /// Destroy the algorithm's instance and leave the loop.
    Destroy,
}

/// The mathematical value of a [`RunnerAction`].
pub enum RunnerActionView {
    Receive,
    AddIntent(IntentView),
    Destroy,
}

impl View for RunnerAction {
    type V = RunnerActionView;

    open spec fn view(&self) -> RunnerActionView {
        match self {
            RunnerAction::Receive => RunnerActionView::Receive,
            RunnerAction::AddIntent(intent) => RunnerActionView::AddIntent(intent@),
            RunnerAction::Destroy => RunnerActionView::Destroy,
        }
    }
}

/// The answer to an event that the current phase does not wait for.
#[derive(Clone, Copy, Debug, PartialEq, Eq, Structural)]
pub struct OutOfTurn;

/// The mathematical value of a [`Runner`].
pub struct RunnerView {
    /// Where the loop stands.
    pub phase: Phase,
    /// The outcomes that the handoff channel took from the runner so far, in
    /// the order in which they were sent.
    pub forwarded: Seq<MatchOutcomeView>,
}

/// The phase and the request that follow when the handoff channel has
/// answered for an outcome: on with the loop if it took the outcome, out of
/// it if the pipeline is gone.
pub open spec fn after_handoff(delivered: bool) -> (Phase, RunnerActionView) {
    if delivered {
        (Phase::Listening, RunnerActionView::Receive)
    } else {
        (Phase::Terminating, RunnerActionView::Destroy)
    }
}

/// One step of the matching loop: the runner's next value and its request,
/// or `None` where the phase does not wait for `event`.
///
/// `delivered` says whether the handoff channel took the outcome. It is read
/// only where an outcome is forwarded.
pub open spec fn runner_step(runner: RunnerView, event: RunnerEventView, delivered: bool) -> Option<
    (RunnerView, RunnerActionView),
> {
    match (runner.phase, event) {
        (Phase::Constructing, RunnerEventView::Constructed) => Some(
            (RunnerView { phase: Phase::Listening, ..runner }, RunnerActionView::Receive),
        ),
        (
            Phase::Listening,
            RunnerEventView::Message(MatchmakerMessageView::ApplyIntent(intent)),
        ) => Some(
            (RunnerView { phase: Phase::Dispatching, ..runner }, RunnerActionView::AddIntent(intent)),
        ),
        (Phase::Listening, RunnerEventView::StreamEnded) => Some(
            (RunnerView { phase: Phase::Terminating, ..runner }, RunnerActionView::Destroy),
        ),
        (Phase::Dispatching, RunnerEventView::Outcome(outcome)) => {
            let (phase, action) = after_handoff(delivered);
            let forwarded = if delivered {
                runner.forwarded.push(outcome)
            } else {
                runner.forwarded
            };
            Some((RunnerView { phase, forwarded }, action))
        },
        _ => None,
    }
}

/// The matching loop's state: its phase, and the sending half of the
/// handoff channel.
pub struct Runner {
    phase: Phase,
    /// Sender of outcomes to the result pipeline.
    result_send: Handoff,
}

impl View for Runner {
    type V = RunnerView;

    closed spec fn view(&self) -> RunnerView {
        RunnerView { phase: self.phase, forwarded: self.result_send.taken() }
    }
}

impl Runner {
    /// Creates a matching loop and the result pipeline it feeds, joined by a
    /// new handoff channel.
    ///
    /// The runner has yet to construct its algorithm and has forwarded
    /// nothing. The handler stands between outcomes, builds its transactions
    /// with the code `tx_code`, settles from `tx_source_address`, and offers
    /// no fee.
    pub fn new_pair(tx_code: Vec<u8>, tx_source_address: Vec<u8>) -> (pair: (Runner, ResultHandler))
        ensures
            pair.0@ == (RunnerView { phase: Phase::Constructing, forwarded: Seq::empty() }),
            pair.1@ == (HandlerView {
                stage: StageView::Receiving,
                code: tx_code@,
                source: tx_source_address@,
                fee_amount: 0,
            }),
    {
        let (result_send, result_recv) = tokio::sync::mpsc::unbounded_channel();
        (
            Runner { phase: Phase::Constructing, result_send: Handoff::new(result_send) },
            ResultHandler::new(result_recv, tx_code, tx_source_address),
        )
    }

    /// The phase the loop is in.
    pub fn phase(&self) -> (phase: Phase)
        ensures
            phase == self@.phase,
    {
        self.phase
    }

    /// The phase and the request that follow an attempt to hand an outcome
    /// to the result pipeline.
    pub fn after_handoff(delivered: bool) -> (next: (Phase, RunnerAction))
        ensures
            (next.0, next.1@) == after_handoff(delivered),
    {
        if delivered {
            (Phase::Listening, RunnerAction::Receive)
        } else {
            (Phase::Terminating, RunnerAction::Destroy)
        }
    }

    /// Sends the algorithm's answer into the handoff channel. The loop goes
    /// on if the channel took it and ends if the pipeline is gone.
    fn try_match_intent(&mut self, outcome: MatchOutcome) -> (action: RunnerAction)
        requires
            old(self)@.phase == Phase::Dispatching,
        ensures
            Some((final(self)@, action@)) == runner_step(
                old(self)@,
                RunnerEventView::Outcome(outcome@),
                true,
            ) || Some((final(self)@, action@)) == runner_step(
                old(self)@,
                RunnerEventView::Outcome(outcome@),
                false,
            ),
    {
        let sent = self.result_send.send(outcome);
        let (phase, action) = Self::after_handoff(sent.is_ok());
        self.phase = phase;
        action
    }

    /// Takes the driver's report and says what to do next.
    ///
    /// An event that the phase waits for moves the loop on as
    /// [`runner_step`] says. An outcome is sent into the handoff channel
    /// before the function returns; whether the channel takes it is for the
    /// channel's other end to decide, so the result is one of the two that
    /// `runner_step` allows. Any other event is refused with [`OutOfTurn`]
    /// and the runner stays as it was.
    pub fn listen(&mut self, event: RunnerEvent) -> (reply: Result<RunnerAction, OutOfTurn>)
        ensures
            runner_step(old(self)@, event@, true) is None ==> reply is Err && final(self)@ == old(
                self,
            )@,
            runner_step(old(self)@, event@, true) is Some ==> reply is Ok && (Some(
                (final(self)@, reply->Ok_0@),
            ) == runner_step(old(self)@, event@, true) || Some((final(self)@, reply->Ok_0@))
                == runner_step(old(self)@, event@, false)),
            !(event is Outcome) && reply is Ok ==> Some((final(self)@, reply->Ok_0@))
                == runner_step(old(self)@, event@, true),
    {
        match (self.phase, event) {
            (Phase::Constructing, RunnerEvent::Constructed) => {
                self.phase = Phase::Listening;
                Ok(RunnerAction::Receive)
            },
            (Phase::Listening, RunnerEvent::Message(MatchmakerMessage::ApplyIntent(intent))) => {
                self.phase = Phase::Dispatching;
                Ok(RunnerAction::AddIntent(intent))
            },
            (Phase::Listening, RunnerEvent::StreamEnded) => {
                self.phase = Phase::Terminating;
                Ok(RunnerAction::Destroy)
            },
            (Phase::Dispatching, RunnerEvent::Outcome(outcome)) => Ok(
                self.try_match_intent(outcome),
            ),
            _ => Err(OutOfTurn),
        }
    }
}

/// One step of a run of the matching loop: what the driver reported, and
/// whether the handoff channel took the outcome, if one was sent.
pub struct RunnerInput {
    pub event: RunnerEventView,
    pub delivered: bool,
}

/// The value of a runner that was new and has been given `inputs` in order.
pub open spec fn runner_after(inputs: Seq<RunnerInput>) -> RunnerView
    decreases inputs.len(),
{
    if inputs.len() == 0 {
        RunnerView { phase: Phase::Constructing, forwarded: Seq::empty() }
    } else {
        let before = runner_after(inputs.drop_last());
        match runner_step(before, inputs.last().event, inputs.last().delivered) {
            Some((next, _)) => next,
            None => before,
        }
    }
}

/// What the runner answered to the last of `inputs`: its request, or `None`
/// where it refused the event.
pub open spec fn last_request(inputs: Seq<RunnerInput>) -> Option<RunnerActionView>
    recommends
        inputs.len() > 0,
{
    match runner_step(
        runner_after(inputs.drop_last()),
        inputs.last().event,
        inputs.last().delivered,
    ) {
        Some((_, action)) => Some(action),
        None => None,
    }
}

/// Something done to the matching algorithm.
pub enum PluginCall {
    Construct,
    AddIntent(IntentView),
    Destroy,
}

/// What is done to the matching algorithm over a run, in order: it is
/// constructed where the runner takes the driver's word for it, given an
/// intent where the runner asks for that, and destroyed where the runner
/// asks for that.
pub open spec fn plugin_calls(inputs: Seq<RunnerInput>) -> Seq<PluginCall>
    decreases inputs.len(),
{
    if inputs.len() == 0 {
        Seq::empty()
    } else {
        let earlier = plugin_calls(inputs.drop_last());
        match last_request(inputs) {
            Some(RunnerActionView::AddIntent(intent)) => earlier.push(PluginCall::AddIntent(intent)),
            Some(RunnerActionView::Destroy) => earlier.push(PluginCall::Destroy),
            Some(RunnerActionView::Receive) => if inputs.last().event is Constructed {
                earlier.push(PluginCall::Construct)
            } else {
                earlier
            },
            None => earlier,
        }
    }
}

/// The intents that the runner asked the algorithm to work on over a run,
/// in order.
pub open spec fn dispatched(inputs: Seq<RunnerInput>) -> Seq<IntentView>
    decreases inputs.len(),
{
    if inputs.len() == 0 {
        Seq::empty()
    } else {
        let earlier = dispatched(inputs.drop_last());
        match last_request(inputs) {
            Some(RunnerActionView::AddIntent(intent)) => earlier.push(intent),
            _ => earlier,
        }
    }
}

/// Over any run, whatever the driver reports and in whatever order, the
/// algorithm is constructed once, before anything else is done to it, and
/// destroyed at most once, after everything else. It has been constructed
/// exactly when the runner has left `Constructing`, and destroyed exactly
/// when the runner is `Terminating`.
pub proof fn lemma_plugin_lifecycle(inputs: Seq<RunnerInput>)
    ensures
        runner_after(inputs).phase == Phase::Constructing <==> plugin_calls(inputs).len() == 0,
        forall|i: int|
            0 <= i < plugin_calls(inputs).len() ==> (#[trigger] plugin_calls(inputs)[i]
                is Construct <==> i == 0),
        forall|i: int|
            0 <= i < plugin_calls(inputs).len() ==> (#[trigger] plugin_calls(inputs)[i]
                is Destroy <==> i == plugin_calls(inputs).len() - 1 && runner_after(inputs).phase
                == Phase::Terminating),
        runner_after(inputs).phase == Phase::Terminating ==> plugin_calls(inputs).len() >= 2,
    decreases inputs.len(),
{
    if inputs.len() > 0 {
        lemma_plugin_lifecycle(inputs.drop_last());
    }
}

/// The answers that the driver reported for the intents it was given over
/// a run, in order.
pub open spec fn answered(inputs: Seq<RunnerInput>) -> Seq<MatchOutcomeView>
    decreases inputs.len(),
{
    if inputs.len() == 0 {
        Seq::empty()
    } else {
        let earlier = answered(inputs.drop_last());
        match (runner_after(inputs.drop_last()).phase, inputs.last().event) {
            (Phase::Dispatching, RunnerEventView::Outcome(outcome)) => earlier.push(outcome),
            _ => earlier,
        }
    }
}

/// Over any run, every intent given to the algorithm is answered before the
/// next is given, and every answer is forwarded as it is, in the order of
/// the intents. While the runner listens there are as many forwarded
/// outcomes as intents given; while it dispatches one intent is in flight;
/// a run that has ended lacks at most the last answer, which the channel
/// did not take.
pub proof fn lemma_one_outcome_per_intent(inputs: Seq<RunnerInput>)
    ensures
        ({
            let given = dispatched(inputs).len();
            let answers = answered(inputs);
            let forwarded = runner_after(inputs).forwarded;
            match runner_after(inputs).phase {
                Phase::Constructing => given == 0 && answers.len() == 0 && forwarded.len() == 0,
                Phase::Listening => given == answers.len() && forwarded == answers,
                Phase::Dispatching => given == answers.len() + 1 && forwarded == answers,
                Phase::Terminating => given == answers.len() && (forwarded == answers || (
                    answers.len() > 0 && forwarded == answers.drop_last())),
            }
        }),
    decreases inputs.len(),
{
    if inputs.len() > 0 {
        lemma_one_outcome_per_intent(inputs.drop_last());
    }
}

/// What was forwarded stays forwarded, in the order in which it came: the
/// outcomes forwarded by the first `k` steps of a run open the list of
/// those forwarded by the whole run. The same holds of the intents given to
/// the algorithm.
pub proof fn lemma_order_is_kept(inputs: Seq<RunnerInput>, k: int)
    requires
        0 <= k <= inputs.len(),
    ensures
        runner_after(inputs.take(k)).forwarded.is_prefix_of(runner_after(inputs).forwarded),
        dispatched(inputs.take(k)).is_prefix_of(dispatched(inputs)),
    decreases inputs.len(),
{
    if k == inputs.len() {
        assert(inputs.take(k) == inputs);
    } else {
        lemma_order_is_kept(inputs.drop_last(), k);
        assert(inputs.drop_last().take(k) == inputs.take(k));
    }
}

} // verus!
