//! State machines that are moved forward by the replies of the bus, and
//! what it means to run one.

use vstd::prelude::*;
use crate::port::{Reply, Request};

verus! {

/// Where a machine stands after a move: it either wants one more
/// transaction performed, or it has finished with an outcome.
#[derive(Debug, PartialEq, Eq)]
pub enum Step<S, T> {
    /// Perform the request, then hand its reply to the machine.
    Issue(Request, S),
    /// Nothing more to do.
    Done(T),
}

/// A state machine that is moved forward by the replies of the bus.
pub trait Machine: Sized {
    /// What the machine hands out when it finishes.
    type Outcome;

    /// The transition taken on `reply`, which answers the request that was
    /// issued together with this state.
    spec fn next(self, reply: Reply) -> Step<Self, Self::Outcome>;

    /// Moves the machine forward on `reply`.
    fn advance(self, reply: Reply) -> (step: Step<Self, Self::Outcome>)
        ensures
            step == self.next(reply),
    ;
}

/// What a machine did over a whole conversation with the bus.
pub struct Run<T> {
    /// The transactions issued, in order.
    pub requests: Seq<Request>,
    /// The outcome, once the machine has finished.
    pub outcome: Option<T>,
}

/// Runs a machine from `step` against the bus replies `replies`, taken in
/// order. The run stops when the machine finishes or when the replies run
/// out; a request that is still waiting for its reply counts as issued.
pub open spec fn run<M: Machine>(step: Step<M, M::Outcome>, replies: Seq<Reply>) -> Run<M::Outcome>
    decreases replies.len(),
{
    match step {
        Step::Done(outcome) => Run { requests: Seq::empty(), outcome: Some(outcome) },
        Step::Issue(request, machine) => {
            if replies.len() == 0 {
                Run { requests: seq![request], outcome: None }
            } else {
                let rest = run(machine.next(replies[0]), replies.drop_first());
                Run { requests: seq![request] + rest.requests, outcome: rest.outcome }
            }
        },
    }
}

} // verus!
