//! The device matcher: does the generic driver claim a device?
//!
//! Chips with the 2.5 Gb/s tier belong to a more specific driver; the
//! generic driver claims the others.

use vstd::prelude::*;
use crate::machine::{Machine, Step, run};
use crate::port::{Access, PhyError, Reply};
use crate::probe::{
    ProbeSession, is_supports_2_5gbps, lemma_probe_conversation, lemma_probe_is_locking,
    probe_access, probe_step, supports_2500,
};
use crate::regs::RTL_GENERIC_PHYID;

verus! {

/// Whether a chip of the generic identifier is claimed, given what the
/// probe returned: only a probe that succeeded and found the 2.5 Gb/s
/// tier keeps the driver away. A probe that came back with an error counts
/// as "tier absent", so that a bus fault cannot stop matching.
pub open spec fn claims(capability: Result<bool, PhyError>) -> bool {
    capability != Ok::<bool, PhyError>(true)
}

/// A match under way: the capability probe.
#[derive(Clone, Copy, Debug, PartialEq, Eq, Structural)]
pub struct MatchSession {
    pub probe: ProbeSession,
}

impl MatchSession {
    /// A move of the probe, seen as a move of the matcher.
    pub open spec fn lift(step: Step<ProbeSession, Result<bool, PhyError>>) -> Step<
        MatchSession,
        bool,
    > {
        match step {
            Step::Issue(request, probe) => Step::Issue(request, MatchSession { probe }),
            Step::Done(capability) => Step::Done(claims(capability)),
        }
    }
}

fn lift_match(step: Step<ProbeSession, Result<bool, PhyError>>) -> (lifted: Step<
    MatchSession,
    bool,
>)
    ensures
        lifted == MatchSession::lift(step),
{
    match step {
        Step::Issue(request, probe) => Step::Issue(request, MatchSession { probe }),
        Step::Done(Ok(able)) => Step::Done(!able),
        Step::Done(Err(_)) => Step::Done(true),
    }
}

impl Machine for MatchSession {
    type Outcome = bool;

    open spec fn next(self, reply: Reply) -> Step<Self, bool> {
        MatchSession::lift(self.probe.next(reply))
    }

    fn advance(self, reply: Reply) -> (step: Step<Self, bool>) {
        lift_match(self.probe.advance(reply))
    }
}

/// The first move of matching a device with chip identifier `id`. A
/// foreign identifier is turned down at once, without a transaction; the
/// generic identifier is followed by the capability probe.
pub open spec fn match_step(id: u32) -> Step<MatchSession, bool> {
    if id == RTL_GENERIC_PHYID {
        MatchSession::lift(probe_step())
    } else {
        Step::Done(false)
    }
}

/// Decides whether the generic driver claims the device with chip
/// identifier `id`. The host applies its identifier mask before it offers
/// a device; this predicate compares the identifier as it is.
pub fn match_phy_device(id: u32) -> (step: Step<MatchSession, bool>)
    ensures
        step == match_step(id),
{
    if id == RTL_GENERIC_PHYID {
        lift_match(is_supports_2_5gbps())
    } else {
        Step::Done(false)
    }
}

/// The matcher's conversation is that of the probe behind it, move for
/// move.
pub proof fn lemma_lift_run(step: Step<ProbeSession, Result<bool, PhyError>>, replies: Seq<Reply>)
    ensures
        run(MatchSession::lift(step), replies).requests == run(step, replies).requests,
        run(MatchSession::lift(step), replies).outcome == match run(step, replies).outcome {
            Some(capability) => Some(claims(capability)),
            None => None,
        },
    decreases replies.len(),
{
    match step {
        Step::Done(_) => {},
        Step::Issue(_, probe) => {
            if replies.len() > 0 {
                lemma_lift_run(probe.next(replies[0]), replies.drop_first());
            }
        },
    }
}

/// Capability gating. The driver claims a device exactly when the chip
/// identifier is the generic one and the probe did not come back with a
/// successful "true": a probe that found the tier absent, and a probe
/// that failed, both leave the device claimed. A foreign identifier is
/// never probed.
pub proof fn lemma_capability_gating(id: u32, replies: Seq<Reply>)
    requires
        probe_access().answered(replies),
    ensures
        run(match_step(id), replies).outcome == Some(
            id == RTL_GENERIC_PHYID && run(probe_step(), replies).outcome != Some(
                Ok::<bool, PhyError>(true),
            ),
        ),
        id == RTL_GENERIC_PHYID ==> run(match_step(id), replies).requests == run(
            probe_step(),
            replies,
        ).requests,
        id != RTL_GENERIC_PHYID ==> run(match_step(id), replies).requests.len() == 0,
{
    lemma_probe_conversation(replies);
    lemma_lift_run(probe_step(), replies);
}

/// What decides a match of the generic identifier, spelled out over the
/// bus replies: the device is turned down exactly when all three
/// transactions of the probe went through and the word read announces the
/// 2.5 Gb/s tier.
pub proof fn lemma_match_outcome(replies: Seq<Reply>)
    requires
        probe_access().answered(replies),
    ensures
        run(match_step(RTL_GENERIC_PHYID), replies).outcome == Some(
            !(replies[0] is Completed && replies[2] is Completed && (replies[1] matches Reply::Completed(
                word,
            ) && supports_2500(word))),
        ),
{
    lemma_probe_conversation(replies);
    lemma_lift_run(probe_step(), replies);
}

/// Lock discipline of the matcher: each of its transactions takes the
/// device lock itself, since matching runs before the host has taken it.
pub proof fn lemma_match_is_locking(id: u32, replies: Seq<Reply>, i: int)
    requires
        0 <= i < run(match_step(id), replies).requests.len(),
    ensures
        run(match_step(id), replies).requests[i].access() == Access::Locking,
{
    if id == RTL_GENERIC_PHYID {
        lemma_lift_run(probe_step(), replies);
        lemma_probe_is_locking(replies, i);
    }
}

} // verus!
