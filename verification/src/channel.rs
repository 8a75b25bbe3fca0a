//! The handoff channel between the matching loop and the result pipeline.
//!
//! The channel is tokio's unbounded multi-producer channel, used with one
//! producer (the [`Runner`](crate::runner::Runner)) and one consumer (the
//! owner of the [`ResultHandler`](crate::result_handler::ResultHandler)).
//! The sending half is held in a [`Handoff`], which keeps count of what the
//! channel took from it. What this module says of tokio is taken for
//! granted by the rest of the crate; it is not proved.

use crate::message::{MatchOutcome, MatchOutcomeView};
use tokio::sync::mpsc::{UnboundedReceiver, UnboundedSender};
use vstd::prelude::*;

verus! {

/// tokio's sending half, carried as an opaque value.
#[verifier::external_type_specification]
#[verifier::external_body]
#[verifier::reject_recursive_types(T)]
pub struct ExUnboundedSender<T>(UnboundedSender<T>);

/// tokio's receiving half, carried as an opaque value.
#[verifier::external_type_specification]
#[verifier::external_body]
#[verifier::reject_recursive_types(T)]
pub struct ExUnboundedReceiver<T>(UnboundedReceiver<T>);

/// `tokio::sync::mpsc::unbounded_channel` makes the two halves of a new,
/// empty channel. Nothing is claimed of them.
pub assume_specification<T>[ tokio::sync::mpsc::unbounded_channel::<T> ]() -> (halves: (
    UnboundedSender<T>,
    UnboundedReceiver<T>,
));

/// The sending half of the handoff channel, together with the outcomes that
/// the channel took through it since it was put here.
pub struct Handoff {
    sender: UnboundedSender<MatchOutcome>,
    taken: Ghost<Seq<MatchOutcomeView>>,
}

impl Handoff {
    /// The outcomes that the channel took from this half, in the order in
    /// which they were sent.
    pub closed spec fn taken(&self) -> Seq<MatchOutcomeView> {
        self.taken@
    }

    /// Holds `sender`, through which nothing was sent yet.
    pub(crate) fn new(sender: UnboundedSender<MatchOutcome>) -> (handoff: Handoff)
        ensures
            handoff.taken() == Seq::<MatchOutcomeView>::empty(),
    {
        Handoff { sender, taken: Ghost(Seq::empty()) }
    }

    /// `UnboundedSender::send` on the handoff channel.
    ///
    /// Trusted: the call never blocks. It returns `Ok` only after it has
    /// queued the outcome it was given, behind all that it queued before.
    /// When the receiving half is closed or dropped it queues nothing and
    /// hands that same outcome back with its error. Which of the two happens
    /// depends on the other half, so neither is promised. (tokio gives up on
    /// the whole process once about half of `usize::MAX` messages are
    /// waiting in one channel; no memory holds that many.)
    #[verifier::external_body]
    pub(crate) fn send(&mut self, outcome: MatchOutcome) -> (sent: Result<(), MatchOutcome>)
        ensures
            sent is Ok ==> final(self).taken() == old(self).taken().push(outcome@),
            sent matches Err(refused) ==> refused == outcome && final(self).taken() == old(
                self,
            ).taken(),
    {
        match self.sender.send(outcome) {
            Ok(()) => Ok(()),
            Err(refused) => Err(refused.0),
        }
    }
}

} // verus!
