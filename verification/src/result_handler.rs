//! The result pipeline: the state machine that turns each outcome of the
//! matching algorithm into a settlement transaction for the ledger and an
//! announcement to the gossip network.
//!
//! The pipeline's waiting is done outside this crate: receiving from the
//! handoff channel, asking the ledger for the current epoch, signing and
//! broadcasting a transaction, dialing the gossip node. The
//! [`ResultHandler`] decides. Its driver performs what the handler asked for
//! last, reports what came of it with [`ResultHandler::run`], and is told
//! what to do next:
//!
//! | stage           | the driver                            | reports                      |
//! |-----------------|---------------------------------------|------------------------------|
//! | `Receiving`     | waits on the handoff channel          | `Outcome` or `ChannelClosed` |
//! | `QueryingEpoch` | asks the ledger for the current epoch | `Epoch`                      |
//! | `Broadcasting`  | signs and broadcasts the transaction  | `Submitted`                  |
//! | `Announcing`    | dials the gossip node                 | `Announced`                  |
//! | `Closed`        | leaves                                | nothing more                 |
//!
//! An event that the current stage does not wait for is refused and changes
//! nothing.

use crate::framing::{
    encodable, exchange_list, framed, holds_transfers, intent_transfers, is_exchange_list,
    lemma_body_holds_payload_and_source, lemma_body_of_a_list, transfers_body,
};
use crate::message::{optional_bytes, optional_rows, rows, MatchOutcome, MatchOutcomeView};
use crate::runner::OutOfTurn;
use tokio::sync::mpsc::UnboundedReceiver;
use vstd::prelude::*;

verus! {

/// A settlement transaction, as far as the pipeline decides it. The driver
/// signs it with the matchmaker's key, pays the fee in the ledger's native
/// token, and broadcasts it.
#[derive(Clone, Debug, PartialEq, Eq)]
pub struct Transaction {
    /// The code that the ledger runs for the transaction.
    pub code: Vec<u8>,
    /// The encoded transfers: the matched exchanges and the source address.
    pub data: Vec<u8>,
    /// The ledger's epoch at the time of submission.
    pub epoch: u64,
    /// The fee offered.
    pub fee_amount: u64,
    /// The most gas the transaction may use.
    pub gas_limit: u64,
}

/// The mathematical value of a [`Transaction`].
pub struct TransactionView {
    pub code: Seq<u8>,
    pub data: Seq<u8>,
    pub epoch: u64,
    pub fee_amount: u64,
    pub gas_limit: u64,
}

impl View for Transaction {
    type V = TransactionView;

    open spec fn view(&self) -> TransactionView {
        TransactionView {
            code: self.code@,
            data: self.data@,
            epoch: self.epoch,
            fee_amount: self.fee_amount,
            gas_limit: self.gas_limit,
        }
    }
}

/// Where the pipeline stands with the outcome at hand.
#[derive(Clone, Debug, PartialEq, Eq)]
pub enum Stage {
    /// Between outcomes.
    Receiving,
    /// A transaction body is built and waits for the epoch.
    QueryingEpoch {
        /// The body of the transaction to come.
        data: Vec<u8>,
        /// The identifiers still to announce.
        matched: Option<Vec<Vec<u8>>>,
    },
    /// A transaction is on its way to the ledger.
    Broadcasting {
        /// The identifiers still to announce.
        matched: Option<Vec<Vec<u8>>>,
    },
    /// An announcement is on its way to the gossip node.
    Announcing,
    /// The handoff channel is closed and drained.
    Closed,
}

/// The mathematical value of a [`Stage`].
pub enum StageView {
    Receiving,
    QueryingEpoch { data: Seq<u8>, matched: Option<Seq<Seq<u8>>> },
    Broadcasting { matched: Option<Seq<Seq<u8>>> },
    Announcing,
    Closed,
}

impl View for Stage {
    type V = StageView;

    open spec fn view(&self) -> StageView {
        match self {
            Stage::Receiving => StageView::Receiving,
            Stage::QueryingEpoch { data, matched } => StageView::QueryingEpoch {
                data: data@,
                matched: optional_rows(*matched),
            },
            Stage::Broadcasting { matched } => StageView::Broadcasting {
                matched: optional_rows(*matched),
            },
            Stage::Announcing => StageView::Announcing,
            Stage::Closed => StageView::Closed,
        }
    }
}

/// What the driver reports to the handler.
#[derive(Clone, Debug, PartialEq, Eq)]
pub enum HandlerEvent {
    /// The handoff channel yielded an outcome.
    Outcome(MatchOutcome),
    /// The handoff channel is closed and holds nothing more.
    ChannelClosed,
    /// The ledger named its current epoch.
    Epoch(u64),
    /// The broadcast is over; the flag says whether the ledger took the
    /// transaction.
    Submitted(bool),
    /// The announcement was handed to the gossip node.
    Announced,
}

/// The mathematical value of a [`HandlerEvent`].
pub enum HandlerEventView {
    Outcome(MatchOutcomeView),
    ChannelClosed,
    Epoch(u64),
    Submitted(bool),
    Announced,
}

impl View for HandlerEvent {
    type V = HandlerEventView;

    open spec fn view(&self) -> HandlerEventView {
        match self {
            HandlerEvent::Outcome(outcome) => HandlerEventView::Outcome(outcome@),
            HandlerEvent::ChannelClosed => HandlerEventView::ChannelClosed,
            HandlerEvent::Epoch(epoch) => HandlerEventView::Epoch(*epoch),
            HandlerEvent::Submitted(accepted) => HandlerEventView::Submitted(*accepted),
            HandlerEvent::Announced => HandlerEventView::Announced,
        }
    }
}

/// What the handler asks its driver to do next.
#[derive(Clone, Debug, PartialEq, Eq)]
pub enum HandlerAction {
    /// Wait for the next outcome on the handoff channel.
    Receive,
    /// Ask the ledger for its current epoch.
    QueryEpoch,
    /// Sign this transaction and broadcast it to the ledger, once.
    Broadcast(Transaction),
    /// Tell the gossip node that the intents with these identifiers matched.
    Announce(Vec<Vec<u8>>),
    /// Leave: there is nothing more to handle.
    Stop,
}

/// The mathematical value of a [`HandlerAction`].
pub enum HandlerActionView {
    Receive,
    QueryEpoch,
    Broadcast(TransactionView),
    Announce(Seq<Seq<u8>>),
    Stop,
}

impl View for HandlerAction {
    type V = HandlerActionView;

    open spec fn view(&self) -> HandlerActionView {
        match self {
            HandlerAction::Receive => HandlerActionView::Receive,
            HandlerAction::QueryEpoch => HandlerActionView::QueryEpoch,
            HandlerAction::Broadcast(transaction) => HandlerActionView::Broadcast(transaction@),
            HandlerAction::Announce(ids) => HandlerActionView::Announce(rows(*ids)),
            HandlerAction::Stop => HandlerActionView::Stop,
        }
    }
}

/// The handler's answer to an event it was waiting for.
#[derive(Clone, Debug, PartialEq, Eq)]
pub struct Directive {
    /// What to do next.
    pub action: HandlerAction,
    /// The transaction payload that was dropped with this step, if one was:
    /// it is given back so that the driver can report it.
    pub rejected: Option<Vec<u8>>,
}

/// The mathematical value of a [`Directive`].
pub struct DirectiveView {
    pub action: HandlerActionView,
    pub rejected: Option<Seq<u8>>,
}

impl View for Directive {
    type V = DirectiveView;

    open spec fn view(&self) -> DirectiveView {
        DirectiveView { action: self.action@, rejected: optional_bytes(self.rejected) }
    }
}

/// The mathematical value of a [`ResultHandler`]: its stage and what it was
/// set up with.
pub struct HandlerView {
    pub stage: StageView,
    /// The code of every transaction the handler builds.
    pub code: Seq<u8>,
    /// The address every settlement is made from.
    pub source: Seq<u8>,
    /// The fee offered with every transaction.
    pub fee_amount: u64,
}

/// The gas limit of every settlement transaction.
pub const GAS_LIMIT: u64 = 0;

/// The stage and the request once the ledger is done with, or was never
/// asked: the announcement if identifiers are left to announce, the next
/// outcome if not.
pub open spec fn after_submission(matched: Option<Seq<Seq<u8>>>) -> (StageView, HandlerActionView) {
    match matched {
        Some(ids) => (StageView::Announcing, HandlerActionView::Announce(ids)),
        None => (StageView::Receiving, HandlerActionView::Receive),
    }
}

/// One step of the pipeline: the handler's next value and its answer, or
/// `None` where the stage does not wait for `event`.
pub open spec fn handler_step(handler: HandlerView, event: HandlerEventView) -> Option<
    (HandlerView, DirectiveView),
> {
    match (handler.stage, event) {
        (StageView::Receiving, HandlerEventView::Outcome(outcome)) => {
            let body = match outcome.transaction_payload {
                Some(payload) => transfers_body(payload, handler.source),
                None => None,
            };
            match body {
                Some(data) => Some(
                    (
                        HandlerView {
                            stage: StageView::QueryingEpoch {
                                data,
                                matched: outcome.matched_intent_ids,
                            },
                            ..handler
                        },
                        DirectiveView { action: HandlerActionView::QueryEpoch, rejected: None },
                    ),
                ),
                None => {
                    let (stage, action) = after_submission(outcome.matched_intent_ids);
                    Some(
                        (
                            HandlerView { stage, ..handler },
                            DirectiveView { action, rejected: outcome.transaction_payload },
                        ),
                    )
                },
            }
        },
        (StageView::Receiving, HandlerEventView::ChannelClosed) => Some(
            (
                HandlerView { stage: StageView::Closed, ..handler },
                DirectiveView { action: HandlerActionView::Stop, rejected: None },
            ),
        ),
        (StageView::QueryingEpoch { data, matched }, HandlerEventView::Epoch(epoch)) => Some(
            (
                HandlerView { stage: StageView::Broadcasting { matched }, ..handler },
                DirectiveView {
                    action: HandlerActionView::Broadcast(
                        TransactionView {
                            code: handler.code,
                            data,
                            epoch,
                            fee_amount: handler.fee_amount,
                            gas_limit: GAS_LIMIT,
                        },
                    ),
                    rejected: None,
                },
            ),
        ),
        (StageView::Broadcasting { matched }, HandlerEventView::Submitted(_)) => {
            let (stage, action) = after_submission(matched);
            Some((HandlerView { stage, ..handler }, DirectiveView { action, rejected: None }))
        },
        (StageView::Announcing, HandlerEventView::Announced) => Some(
            (
                HandlerView { stage: StageView::Receiving, ..handler },
                DirectiveView { action: HandlerActionView::Receive, rejected: None },
            ),
        ),
        _ => None,
    }
}

/// The result pipeline's state: its stage, what it was set up with, and the
/// receiving half of the handoff channel.
pub struct ResultHandler {
    stage: Stage,
    /// A receiver of outcomes from the [`Runner`](crate::runner::Runner). The
    /// handler's driver awaits on it; the handler itself never reads it.
    pub result_recv: UnboundedReceiver<MatchOutcome>,
    /// The code of the transaction that is sent to the ledger.
    tx_code: Vec<u8>,
    /// The source address of transactions created from matches.
    tx_source_address: Vec<u8>,
    /// The fee offered with each transaction.
    fee_amount: u64,
}

impl View for ResultHandler {
    type V = HandlerView;

    closed spec fn view(&self) -> HandlerView {
        HandlerView {
            stage: self.stage@,
            code: self.tx_code@,
            source: self.tx_source_address@,
            fee_amount: self.fee_amount,
        }
    }
}

impl ResultHandler {
    /// A handler between outcomes that offers no fee.
    pub(crate) fn new(
        result_recv: UnboundedReceiver<MatchOutcome>,
        tx_code: Vec<u8>,
        tx_source_address: Vec<u8>,
    ) -> (handler: ResultHandler)
        ensures
            handler@ == (HandlerView {
                stage: StageView::Receiving,
                code: tx_code@,
                source: tx_source_address@,
                fee_amount: 0,
            }),
    {
        ResultHandler {
            stage: Stage::Receiving,
            result_recv,
            tx_code,
            tx_source_address,
            fee_amount: 0,
        }
    }

    /// The same handler, offering `fee_amount` with every transaction.
    pub fn with_fee(self, fee_amount: u64) -> (handler: ResultHandler)
        ensures
            handler@ == (HandlerView { fee_amount, ..self@ }),
    {
        ResultHandler { fee_amount, ..self }
    }

    /// The stage the pipeline is in.
    pub fn stage(&self) -> (stage: &Stage)
        ensures
            stage@ == self@.stage,
    {
        &self.stage
    }

    /// The code of the transactions that the handler builds.
    pub fn tx_code(&self) -> (code: &Vec<u8>)
        ensures
            code@ == self@.code,
    {
        &self.tx_code
    }

    /// The address that settlements are made from.
    pub fn tx_source_address(&self) -> (source: &Vec<u8>)
        ensures
            source@ == self@.source,
    {
        &self.tx_source_address
    }

    /// The fee offered with every transaction.
    pub fn fee_amount(&self) -> (fee_amount: u64)
        ensures
            fee_amount == self@.fee_amount,
    {
        self.fee_amount
    }

    /// Builds the body of the transaction that settles the exchanges in
    /// `tx_data` from the handler's source address: `None` exactly where
    /// [`transfers_body`] has none.
    pub fn submit_tx(&self, tx_data: &Vec<u8>) -> (body: Option<Vec<u8>>)
        ensures
            optional_bytes(body) == transfers_body(tx_data@, self@.source),
    {
        intent_transfers(tx_data, &self.tx_source_address)
    }

    /// Moves on once the ledger is done with, or was never asked.
    fn announce_or_receive(&mut self, matched: Option<Vec<Vec<u8>>>) -> (action: HandlerAction)
        ensures
            (final(self)@.stage, action@) == after_submission(optional_rows(matched)),
            final(self)@ == (HandlerView { stage: final(self)@.stage, ..old(self)@ }),
    {
        match matched {
            Some(ids) => {
                self.stage = Stage::Announcing;
                HandlerAction::Announce(ids)
            },
            None => {
                self.stage = Stage::Receiving;
                HandlerAction::Receive
            },
        }
    }

    /// Takes the driver's report and says what to do next.
    ///
    /// An event that the stage waits for moves the pipeline on exactly as
    /// [`handler_step`] says. Any other event is refused with [`OutOfTurn`]
    /// and the handler stays as it was.
    pub fn run(&mut self, event: HandlerEvent) -> (reply: Result<Directive, OutOfTurn>)
        ensures
            match handler_step(old(self)@, event@) {
                Some((next, directive)) => reply is Ok && final(self)@ == next && reply->Ok_0@
                    == directive,
                None => reply is Err && final(self)@ == old(self)@,
            },
    {
        let mut stage = Stage::Receiving;
        core::mem::swap(&mut self.stage, &mut stage);
        match (stage, event) {
            (Stage::Receiving, HandlerEvent::Outcome(outcome)) => {
                let MatchOutcome { transaction_payload, matched_intent_ids } = outcome;
                let body = match &transaction_payload {
                    Some(payload) => self.submit_tx(payload),
                    None => None,
                };
                match body {
                    Some(data) => {
                        self.stage = Stage::QueryingEpoch { data, matched: matched_intent_ids };
                        Ok(Directive { action: HandlerAction::QueryEpoch, rejected: None })
                    },
                    None => {
                        let action = self.announce_or_receive(matched_intent_ids);
                        Ok(Directive { action, rejected: transaction_payload })
                    },
                }
            },
            (Stage::Receiving, HandlerEvent::ChannelClosed) => {
                self.stage = Stage::Closed;
                Ok(Directive { action: HandlerAction::Stop, rejected: None })
            },
            (Stage::QueryingEpoch { data, matched }, HandlerEvent::Epoch(epoch)) => {
                let transaction = Transaction {
                    code: self.tx_code.clone(),
                    data,
                    epoch,
                    fee_amount: self.fee_amount,
                    gas_limit: GAS_LIMIT,
                };
                self.stage = Stage::Broadcasting { matched };
                Ok(Directive { action: HandlerAction::Broadcast(transaction), rejected: None })
            },
            (Stage::Broadcasting { matched }, HandlerEvent::Submitted(_)) => {
                let action = self.announce_or_receive(matched);
                Ok(Directive { action, rejected: None })
            },
            (Stage::Announcing, HandlerEvent::Announced) => {
                self.stage = Stage::Receiving;
                Ok(Directive { action: HandlerAction::Receive, rejected: None })
            },
            (stage, _) => {
                self.stage = stage;
                Err(OutOfTurn)
            },
        }
    }
}

/// The value of `handler` after it has been given `events` in order.
pub open spec fn handler_after(handler: HandlerView, events: Seq<HandlerEventView>) -> HandlerView
    decreases events.len(),
{
    if events.len() == 0 {
        handler
    } else {
        let before = handler_after(handler, events.drop_last());
        match handler_step(before, events.last()) {
            Some((next, _)) => next,
            None => before,
        }
    }
}

/// What `handler` asked for in answer to the last of `events`, or `None`
/// where it refused the event.
pub open spec fn last_request(handler: HandlerView, events: Seq<HandlerEventView>) -> Option<
    HandlerActionView,
>
    recommends
        events.len() > 0,
{
    match handler_step(handler_after(handler, events.drop_last()), events.last()) {
        Some((_, directive)) => Some(directive.action),
        None => None,
    }
}

/// The data of the transactions that `handler` asked to broadcast over
/// `events`, in order.
pub open spec fn broadcast_data(handler: HandlerView, events: Seq<HandlerEventView>) -> Seq<
    Seq<u8>,
>
    decreases events.len(),
{
    if events.len() == 0 {
        Seq::empty()
    } else {
        let earlier = broadcast_data(handler, events.drop_last());
        match last_request(handler, events) {
            Some(HandlerActionView::Broadcast(transaction)) => earlier.push(transaction.data),
            _ => earlier,
        }
    }
}

/// The lists of identifiers that `handler` asked to announce over `events`,
/// in order.
pub open spec fn announced(handler: HandlerView, events: Seq<HandlerEventView>) -> Seq<
    Seq<Seq<u8>>,
>
    decreases events.len(),
{
    if events.len() == 0 {
        Seq::empty()
    } else {
        let earlier = announced(handler, events.drop_last());
        match last_request(handler, events) {
            Some(HandlerActionView::Announce(ids)) => earlier.push(ids),
            _ => earlier,
        }
    }
}

/// The outcomes that `handler` took over `events`, in order.
pub open spec fn outcomes_taken(handler: HandlerView, events: Seq<HandlerEventView>) -> Seq<
    MatchOutcomeView,
>
    decreases events.len(),
{
    if events.len() == 0 {
        Seq::empty()
    } else {
        let earlier = outcomes_taken(handler, events.drop_last());
        match (handler_after(handler, events.drop_last()).stage, events.last()) {
            (StageView::Receiving, HandlerEventView::Outcome(outcome)) => earlier.push(outcome),
            _ => earlier,
        }
    }
}

/// The transaction bodies that `outcomes` call for, in order: one for each
/// payload that is a list of matched exchanges, settled from `source`.
pub open spec fn bodies_due(outcomes: Seq<MatchOutcomeView>, source: Seq<u8>) -> Seq<Seq<u8>>
    decreases outcomes.len(),
{
    if outcomes.len() == 0 {
        Seq::empty()
    } else {
        let earlier = bodies_due(outcomes.drop_last(), source);
        match outcomes.last().transaction_payload {
            Some(payload) => match transfers_body(payload, source) {
                Some(body) => earlier.push(body),
                None => earlier,
            },
            None => earlier,
        }
    }
}

/// The announcements that `outcomes` call for, in order: one for each
/// outcome that holds identifiers.
pub open spec fn identifiers_due(outcomes: Seq<MatchOutcomeView>) -> Seq<Seq<Seq<u8>>>
    decreases outcomes.len(),
{
    if outcomes.len() == 0 {
        Seq::empty()
    } else {
        let earlier = identifiers_due(outcomes.drop_last());
        match outcomes.last().matched_intent_ids {
            Some(ids) => earlier.push(ids),
            None => earlier,
        }
    }
}

/// The body that a stage still has to send to the ledger.
pub open spec fn body_in_hand(stage: StageView) -> Seq<Seq<u8>> {
    match stage {
        StageView::QueryingEpoch { data, .. } => seq![data],
        _ => Seq::empty(),
    }
}

/// The identifiers that a stage still has to announce.
pub open spec fn identifiers_in_hand(stage: StageView) -> Seq<Seq<Seq<u8>>> {
    match stage {
        StageView::QueryingEpoch { matched: Some(ids), .. } => seq![ids],
        StageView::Broadcasting { matched: Some(ids) } => seq![ids],
        _ => Seq::empty(),
    }
}

/// Over any run of a handler that starts between outcomes, whatever the
/// driver reports and in whatever order, the handler asks for exactly the
/// effects that the outcomes it took call for, each once and in the order
/// of the outcomes: the broadcasts asked for so far, with the body still in
/// hand, are the bodies due; the announcements asked for so far, with the
/// identifiers still in hand, are the announcements due. What the handler
/// was set up with never changes.
pub proof fn lemma_effects_follow_outcomes(handler: HandlerView, events: Seq<HandlerEventView>)
    requires
        handler.stage is Receiving,
    ensures
        ({
            let after = handler_after(handler, events);
            let taken = outcomes_taken(handler, events);
            &&& after == HandlerView { stage: after.stage, ..handler }
            &&& broadcast_data(handler, events) + body_in_hand(after.stage) == bodies_due(
                taken,
                handler.source,
            )
            &&& announced(handler, events) + identifiers_in_hand(after.stage) == identifiers_due(
                taken,
            )
        }),
    decreases events.len(),
{
    let after = handler_after(handler, events);
    let taken = outcomes_taken(handler, events);
    if events.len() > 0 {
        lemma_effects_follow_outcomes(handler, events.drop_last());
        if taken.len() > outcomes_taken(handler, events.drop_last()).len() {
            assert(taken.drop_last() == outcomes_taken(handler, events.drop_last()));
        }
    }
    assert(broadcast_data(handler, events) + body_in_hand(after.stage) =~= bodies_due(
        taken,
        handler.source,
    ));
    assert(announced(handler, events) + identifiers_in_hand(after.stage) =~= identifiers_due(
        taken,
    ));
}

/// The transaction body that an outcome calls for: that of its payload, if
/// it has one and the payload is a list of matched exchanges.
pub open spec fn body_for(outcome: MatchOutcomeView, source: Seq<u8>) -> Option<Seq<u8>> {
    match outcome.transaction_payload {
        Some(payload) => transfers_body(payload, source),
        None => None,
    }
}

/// What a driver reports while `handler` deals with one outcome, if it does
/// what it is asked and nothing else: the outcome; the epoch and the end of
/// the broadcast, where a transaction is due; the announcement, where one
/// is due.
pub open spec fn reports_for(
    handler: HandlerView,
    outcome: MatchOutcomeView,
    epoch: u64,
    accepted: bool,
) -> Seq<HandlerEventView> {
    let ledger = if body_for(outcome, handler.source) is Some {
        seq![HandlerEventView::Epoch(epoch), HandlerEventView::Submitted(accepted)]
    } else {
        Seq::empty()
    };
    let gossip = if outcome.matched_intent_ids is Some {
        seq![HandlerEventView::Announced]
    } else {
        Seq::empty()
    };
    seq![HandlerEventView::Outcome(outcome)] + ledger + gossip
}

/// What one more report adds to a run.
proof fn lemma_one_more_report(
    handler: HandlerView,
    events: Seq<HandlerEventView>,
    event: HandlerEventView,
)
    ensures
        ({
            let longer = events.push(event);
            let before = handler_after(handler, events);
            let step = handler_step(before, event);
            &&& handler_after(handler, longer) == if step is Some {
                step->Some_0.0
            } else {
                before
            }
            &&& broadcast_data(handler, longer) == match step {
                Some((_, DirectiveView { action: HandlerActionView::Broadcast(transaction), .. })) =>
                broadcast_data(handler, events).push(transaction.data),
                _ => broadcast_data(handler, events),
            }
            &&& announced(handler, longer) == match step {
                Some((_, DirectiveView { action: HandlerActionView::Announce(ids), .. })) => announced(
                    handler,
                    events,
                ).push(ids),
                _ => announced(handler, events),
            }
            &&& outcomes_taken(handler, longer) == match (before.stage, event) {
                (StageView::Receiving, HandlerEventView::Outcome(outcome)) => outcomes_taken(
                    handler,
                    events,
                ).push(outcome),
                _ => outcomes_taken(handler, events),
            }
        }),
{
    assert(events.push(event).drop_last() =~= events);
}

/// Each outcome is dealt with once and for all. Over the reports for one
/// outcome, whatever the ledger answers, the handler asks for exactly one
/// broadcast if the outcome calls for a transaction and for none if not,
/// and for exactly one announcement if the outcome holds identifiers and
/// for none if not. The broadcast carries the body due, the announcement
/// the outcome's identifiers. At the end the handler is as it was, ready
/// for the next outcome.
pub proof fn lemma_one_outcome_is_handled_once(
    handler: HandlerView,
    outcome: MatchOutcomeView,
    epoch: u64,
    accepted: bool,
)
    requires
        handler.stage is Receiving,
    ensures
        ({
            let reports = reports_for(handler, outcome, epoch, accepted);
            &&& handler_after(handler, reports) == handler
            &&& outcomes_taken(handler, reports) == seq![outcome]
            &&& broadcast_data(handler, reports) == match body_for(outcome, handler.source) {
                Some(body) => seq![body],
                None => Seq::empty(),
            }
            &&& announced(handler, reports) == match outcome.matched_intent_ids {
                Some(ids) => seq![ids],
                None => Seq::empty(),
            }
        }),
{
    let reports = reports_for(handler, outcome, epoch, accepted);
    let none = Seq::<HandlerEventView>::empty();
    assert(handler_after(handler, none) == handler);
    assert(broadcast_data(handler, none) == Seq::<Seq<u8>>::empty());
    assert(announced(handler, none) == Seq::<Seq<Seq<u8>>>::empty());
    assert(outcomes_taken(handler, none) == Seq::<MatchOutcomeView>::empty());
    let taken = none.push(HandlerEventView::Outcome(outcome));
    lemma_one_more_report(handler, none, HandlerEventView::Outcome(outcome));
    assert(outcomes_taken(handler, taken) =~= seq![outcome]);
    let ids = outcome.matched_intent_ids;
    if body_for(outcome, handler.source) is Some {
        let body = body_for(outcome, handler.source)->Some_0;
        let asked = taken.push(HandlerEventView::Epoch(epoch));
        let told = asked.push(HandlerEventView::Submitted(accepted));
        lemma_one_more_report(handler, taken, HandlerEventView::Epoch(epoch));
        lemma_one_more_report(handler, asked, HandlerEventView::Submitted(accepted));
        assert(broadcast_data(handler, told) =~= seq![body]);
        if ids is Some {
            let dialed = told.push(HandlerEventView::Announced);
            lemma_one_more_report(handler, told, HandlerEventView::Announced);
            assert(announced(handler, dialed) =~= seq![ids->Some_0]);
            assert(reports =~= dialed);
        } else {
            assert(reports =~= told);
        }
    } else {
        if ids is Some {
            let dialed = taken.push(HandlerEventView::Announced);
            lemma_one_more_report(handler, taken, HandlerEventView::Announced);
            assert(announced(handler, dialed) =~= seq![ids->Some_0]);
            assert(reports =~= dialed);
        } else {
            assert(reports =~= taken);
        }
    }
}

/// The one transaction that is broadcast for a list of matched exchanges
/// settles those exchanges from the address that the handler was set up
/// with. Its data are the encoding of the transfers of that list from that
/// address; a reader finds in them no other list and no other address.
pub proof fn lemma_broadcast_holds_the_exchanges_and_the_source(
    handler: HandlerView,
    outcome: MatchOutcomeView,
    epoch: u64,
    accepted: bool,
    records: Seq<Seq<u8>>,
    settled_from: Seq<u8>,
)
    requires
        handler.stage is Receiving,
        handler.source.len() <= u32::MAX,
        outcome.transaction_payload is Some,
        is_exchange_list(outcome.transaction_payload->Some_0),
    ensures
        ({
            let sent = broadcast_data(
                handler,
                reports_for(handler, outcome, epoch, accepted),
            );
            let payload = outcome.transaction_payload->Some_0;
            &&& sent.len() == 1
            &&& sent[0] == payload + framed(handler.source)
            &&& payload == exchange_list(records) && encodable(records)
                ==> holds_transfers(sent[0], records, handler.source)
            &&& holds_transfers(sent[0], records, settled_from) ==> settled_from == handler.source
                && payload == exchange_list(records)
        }),
{
    lemma_one_outcome_is_handled_once(handler, outcome, epoch, accepted);
    let payload = outcome.transaction_payload->Some_0;
    let body = payload + framed(handler.source);
    if holds_transfers(body, records, settled_from) {
        lemma_body_holds_payload_and_source(payload, handler.source, records, settled_from);
    }
    if payload == exchange_list(records) && encodable(records) {
        lemma_body_of_a_list(records, handler.source);
    }
}

/// An outcome that holds neither a transaction payload nor identifiers has
/// no effect: the handler asks for the next outcome at once, and nothing is
/// submitted or announced on the way.
pub proof fn lemma_no_match_no_effect(handler: HandlerView, outcome: MatchOutcomeView)
    requires
        handler.stage is Receiving,
        outcome.transaction_payload is None,
        outcome.matched_intent_ids is None,
    ensures
        handler_step(handler, HandlerEventView::Outcome(outcome)) == Some(
            (handler, DirectiveView { action: HandlerActionView::Receive, rejected: None }),
        ),
{
}

/// An outcome that holds identifiers and no transaction payload is handled
/// in two steps: the handler asks for one announcement of exactly those
/// identifiers, and after it for the next outcome. The ledger is not
/// involved.
pub proof fn lemma_announcement_only(handler: HandlerView, outcome: MatchOutcomeView)
    requires
        handler.stage is Receiving,
        outcome.transaction_payload is None,
        outcome.matched_intent_ids is Some,
    ensures
        ({
            let announcing = HandlerView { stage: StageView::Announcing, ..handler };
            &&& handler_step(handler, HandlerEventView::Outcome(outcome)) == Some(
                (
                    announcing,
                    DirectiveView {
                        action: HandlerActionView::Announce(outcome.matched_intent_ids->Some_0),
                        rejected: None,
                    },
                ),
            )
            &&& handler_step(announcing, HandlerEventView::Announced) == Some(
                (handler, DirectiveView { action: HandlerActionView::Receive, rejected: None }),
            )
        }),
{
}

/// An outcome that holds a list of matched exchanges and no identifiers is
/// handled in three steps: the handler asks for the epoch, then for one
/// broadcast, then for the next outcome. The transaction carries the
/// handler's code and fee and the epoch it was told, and its data are the
/// payload followed by the framed source address that the handler was set
/// up with. Nothing is announced.
pub proof fn lemma_submission_only(
    handler: HandlerView,
    outcome: MatchOutcomeView,
    epoch: u64,
    accepted: bool,
)
    requires
        handler.stage is Receiving,
        outcome.transaction_payload is Some,
        outcome.matched_intent_ids is None,
        is_exchange_list(outcome.transaction_payload->Some_0),
        handler.source.len() <= u32::MAX,
    ensures
        ({
            let data = outcome.transaction_payload->Some_0 + framed(handler.source);
            let querying = HandlerView {
                stage: StageView::QueryingEpoch { data, matched: None },
                ..handler
            };
            let broadcasting = HandlerView {
                stage: StageView::Broadcasting { matched: None },
                ..handler
            };
            &&& handler_step(handler, HandlerEventView::Outcome(outcome)) == Some(
                (
                    querying,
                    DirectiveView { action: HandlerActionView::QueryEpoch, rejected: None },
                ),
            )
            &&& handler_step(querying, HandlerEventView::Epoch(epoch)) == Some(
                (
                    broadcasting,
                    DirectiveView {
                        action: HandlerActionView::Broadcast(
                            TransactionView {
                                code: handler.code,
                                data,
                                epoch,
                                fee_amount: handler.fee_amount,
                                gas_limit: GAS_LIMIT,
                            },
                        ),
                        rejected: None,
                    },
                ),
            )
            &&& handler_step(broadcasting, HandlerEventView::Submitted(accepted)) == Some(
                (handler, DirectiveView { action: HandlerActionView::Receive, rejected: None }),
            )
        }),
{
}

/// An outcome that holds both a list of matched exchanges and identifiers is
/// handled in four steps, the ledger first: the epoch, one broadcast, one
/// announcement of exactly those identifiers, the next outcome. The
/// announcement follows whether or not the ledger took the transaction.
pub proof fn lemma_submission_then_announcement(
    handler: HandlerView,
    outcome: MatchOutcomeView,
    epoch: u64,
    accepted: bool,
)
    requires
        handler.stage is Receiving,
        outcome.transaction_payload is Some,
        outcome.matched_intent_ids is Some,
        is_exchange_list(outcome.transaction_payload->Some_0),
        handler.source.len() <= u32::MAX,
    ensures
        ({
            let data = outcome.transaction_payload->Some_0 + framed(handler.source);
            let matched = outcome.matched_intent_ids;
            let querying = HandlerView {
                stage: StageView::QueryingEpoch { data, matched },
                ..handler
            };
            let broadcasting = HandlerView { stage: StageView::Broadcasting { matched }, ..handler };
            let announcing = HandlerView { stage: StageView::Announcing, ..handler };
            &&& handler_step(handler, HandlerEventView::Outcome(outcome)) == Some(
                (
                    querying,
                    DirectiveView { action: HandlerActionView::QueryEpoch, rejected: None },
                ),
            )
            &&& handler_step(querying, HandlerEventView::Epoch(epoch)) == Some(
                (
                    broadcasting,
                    DirectiveView {
                        action: HandlerActionView::Broadcast(
                            TransactionView {
                                code: handler.code,
                                data,
                                epoch,
                                fee_amount: handler.fee_amount,
                                gas_limit: GAS_LIMIT,
                            },
                        ),
                        rejected: None,
                    },
                ),
            )
            &&& handler_step(broadcasting, HandlerEventView::Submitted(accepted)) == Some(
                (
                    announcing,
                    DirectiveView {
                        action: HandlerActionView::Announce(matched->Some_0),
                        rejected: None,
                    },
                ),
            )
            &&& handler_step(announcing, HandlerEventView::Announced) == Some(
                (handler, DirectiveView { action: HandlerActionView::Receive, rejected: None }),
            )
        }),
{
}

/// A transaction payload that is no list of matched exchanges is dropped:
/// the handler gives it back with its answer, asks the ledger for nothing,
/// and goes on with the identifiers as if there had been no payload.
pub proof fn lemma_malformed_payload_is_dropped(handler: HandlerView, outcome: MatchOutcomeView)
    requires
        handler.stage is Receiving,
        outcome.transaction_payload is Some,
        !is_exchange_list(outcome.transaction_payload->Some_0),
    ensures
        ({
            let without = MatchOutcomeView { transaction_payload: None, ..outcome };
            let dropped = handler_step(handler, HandlerEventView::Outcome(outcome))->Some_0;
            let plain = handler_step(handler, HandlerEventView::Outcome(without))->Some_0;
            &&& handler_step(handler, HandlerEventView::Outcome(outcome)) is Some
            &&& dropped.0 == plain.0
            &&& dropped.1.action == plain.1.action
            &&& dropped.1.rejected == outcome.transaction_payload
            &&& !(dropped.0.stage is QueryingEpoch)
        }),
{
}

/// A transaction that the ledger did not take holds nothing up: the handler
/// goes on exactly as if the ledger had taken it, and after the
/// announcement, if one is due, it takes the next outcome.
pub proof fn lemma_failed_submission_is_passed_over(handler: HandlerView, next: MatchOutcomeView)
    requires
        handler.stage is Broadcasting,
    ensures
        handler_step(handler, HandlerEventView::Submitted(false)) is Some,
        handler_step(handler, HandlerEventView::Submitted(false)) == handler_step(
            handler,
            HandlerEventView::Submitted(true),
        ),
        ({
            let after = handler_step(handler, HandlerEventView::Submitted(false))->Some_0.0;
            let ready = if after.stage is Announcing {
                handler_step(after, HandlerEventView::Announced)->Some_0.0
            } else {
                after
            };
            &&& ready == HandlerView { stage: StageView::Receiving, ..handler }
            &&& handler_step(ready, HandlerEventView::Outcome(next)) is Some
        }),
{
}

} // verus!
