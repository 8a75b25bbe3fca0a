//! The values that travel between the gossip network, the matching
//! algorithm and the two state machines.

use vstd::prelude::*;

verus! {

/// The byte strings held by a vector of byte vectors, in order.
pub open spec fn rows(v: Vec<Vec<u8>>) -> Seq<Seq<u8>> {
    Seq::new(v@.len(), |i: int| v@[i]@)
}

/// The byte strings held by an optional vector of byte vectors.
pub open spec fn optional_rows(v: Option<Vec<Vec<u8>>>) -> Option<Seq<Seq<u8>>> {
    match v {
        Some(held) => Some(rows(held)),
        None => None,
    }
}

/// The bytes held by an optional byte vector.
pub open spec fn optional_bytes(v: Option<Vec<u8>>) -> Option<Seq<u8>> {
    match v {
        Some(held) => Some(held@),
        None => None,
    }
}

/// One gossiped expression of a wish to trade. Both parts are opaque here.
#[derive(Clone, Debug, PartialEq, Eq)]
pub struct Intent {
    /// The identifier under which the network knows the intent.
    pub id: Vec<u8>,
    /// The intent's payload.
    pub data: Vec<u8>,
}

/// The mathematical value of an [`Intent`].
pub struct IntentView {
    pub id: Seq<u8>,
    pub data: Seq<u8>,
}

impl View for Intent {
    type V = IntentView;

    open spec fn view(&self) -> IntentView {
        IntentView { id: self.id@, data: self.data@ }
    }
}

/// What the matching algorithm answers for one intent.
///
/// Either part may be absent, independently of the other; with both absent
/// the algorithm found no match.
#[derive(Clone, Debug, PartialEq, Eq)]
pub struct MatchOutcome {
    /// The encoded list of matched exchanges to settle on the ledger.
    pub transaction_payload: Option<Vec<u8>>,
    /// The identifiers of the intents that were matched, in the order given.
    pub matched_intent_ids: Option<Vec<Vec<u8>>>,
}

/// The mathematical value of a [`MatchOutcome`].
pub struct MatchOutcomeView {
    pub transaction_payload: Option<Seq<u8>>,
    pub matched_intent_ids: Option<Seq<Seq<u8>>>,
}

impl View for MatchOutcome {
    type V = MatchOutcomeView;

    open spec fn view(&self) -> MatchOutcomeView {
        MatchOutcomeView {
            transaction_payload: optional_bytes(self.transaction_payload),
            matched_intent_ids: optional_rows(self.matched_intent_ids),
        }
    }
}

/// A message from the gossip network to the matchmaker.
#[derive(Clone, Debug, PartialEq, Eq)]
pub enum MatchmakerMessage {
    /// Run the matching algorithm on the given intent.
    ApplyIntent(Intent),
}

/// The mathematical value of a [`MatchmakerMessage`].
pub enum MatchmakerMessageView {
    ApplyIntent(IntentView),
}

impl View for MatchmakerMessage {
    type V = MatchmakerMessageView;

    open spec fn view(&self) -> MatchmakerMessageView {
        match self {
            MatchmakerMessage::ApplyIntent(intent) => MatchmakerMessageView::ApplyIntent(intent@),
        }
    }
}

} // verus!
