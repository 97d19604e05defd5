//! The capability probe: does this chip support the 2.5 Gb/s tier?
//!
//! The probe runs while a device is being matched, before the host has
//! taken the device lock, so all of its transactions take the lock
//! themselves. A probe must never stand in the way of matching: a read of
//! the ability word that fails says "tier absent", it is no error.

use vstd::prelude::*;
use crate::machine::{Machine, Run, Step, run};
use crate::paged::{
    PagedAccess, PagedSession, Phase, Transfer, lemma_lock_discipline, lemma_page_restored,
    lemma_paged_conversation, lemma_restored_whatever_the_access, read_page_request,
};
use crate::port::{
    Access, PhyError, Reply, bank_after, fault_free, faithful, page_after,
};
use crate::regs::{PAGE_2500_ABILITY, REG_2500_ABILITY, RTL_SUPPORTS_2500FULL};

verus! {

/// Whether the ability word `word` announces the 2.5 Gb/s tier: it is
/// positive and has the ability bit set.
pub open spec fn supports_2500(word: i32) -> bool {
    word > 0 && word & RTL_SUPPORTS_2500FULL != 0
}

/// Tells from the ability word whether the chip has the 2.5 Gb/s tier.
pub fn has_2500_ability(word: i32) -> (able: bool)
    ensures
        able == supports_2500(word),
{
    word > 0 && (word & RTL_SUPPORTS_2500FULL) != 0
}

/// The paged read that fetches the ability word.
pub open spec fn probe_access() -> PagedAccess {
    PagedAccess {
        access: Access::Locking,
        page: PAGE_2500_ABILITY,
        transfer: Transfer::Read { reg: REG_2500_ABILITY },
    }
}

/// What the probe returns once the bank was selected, from the reply to
/// the read of the ability word and the reply to the restoring write. A
/// read that failed means "tier absent", whatever became of the restoring
/// write; after a good read a failed restoring write is reported.
pub open spec fn probe_verdict(primary: Reply, restore: Reply) -> Result<bool, PhyError> {
    match primary {
        Reply::Failed(_) => Ok(false),
        Reply::Completed(word) => match restore {
            Reply::Failed(code) => Err(PhyError::Bus(code)),
            Reply::Completed(_) => Ok(supports_2500(word)),
        },
    }
}

/// What the probe returns, once every transaction is answered. Only a
/// bank select that failed, and a restoring write that failed after a good
/// read, come out as errors.
pub open spec fn probe_outcome(replies: Seq<Reply>) -> Option<Result<bool, PhyError>> {
    if !probe_access().answered(replies) {
        None
    } else {
        match replies[0] {
            Reply::Failed(code) => Some(Err(PhyError::Bus(code))),
            Reply::Completed(_) => Some(probe_verdict(replies[1], replies[2])),
        }
    }
}

/// A probe under way: the paged read of the ability word.
#[derive(Clone, Copy, Debug, PartialEq, Eq, Structural)]
pub struct ProbeSession {
    pub inner: PagedSession,
}

impl ProbeSession {
    /// A move of the paged read before the restoring write is answered,
    /// seen as a move of the probe.
    pub open spec fn lift(step: Step<PagedSession, Result<i32, PhyError>>) -> Step<
        ProbeSession,
        Result<bool, PhyError>,
    > {
        match step {
            Step::Issue(request, inner) => Step::Issue(request, ProbeSession { inner }),
            Step::Done(Ok(word)) => Step::Done(Ok(supports_2500(word))),
            Step::Done(Err(error)) => Step::Done(Err(error)),
        }
    }
}

fn lift_probe(step: Step<PagedSession, Result<i32, PhyError>>) -> (lifted: Step<
    ProbeSession,
    Result<bool, PhyError>,
>)
    ensures
        lifted == ProbeSession::lift(step),
{
    match step {
        Step::Issue(request, inner) => Step::Issue(request, ProbeSession { inner }),
        Step::Done(Ok(word)) => Step::Done(Ok(has_2500_ability(word))),
        Step::Done(Err(error)) => Step::Done(Err(error)),
    }
}

fn conclude_probe(primary: Reply, restore: Reply) -> (capability: Result<bool, PhyError>)
    ensures
        capability == probe_verdict(primary, restore),
{
    match primary {
        Reply::Failed(_) => Ok(false),
        Reply::Completed(word) => match restore {
            Reply::Failed(code) => Err(PhyError::Bus(code)),
            Reply::Completed(_) => Ok(has_2500_ability(word)),
        },
    }
}

impl Machine for ProbeSession {
    type Outcome = Result<bool, PhyError>;

    open spec fn next(self, reply: Reply) -> Step<Self, Result<bool, PhyError>> {
        match self.inner.phase {
            Phase::Restoring { primary } => Step::Done(probe_verdict(primary, reply)),
            _ => ProbeSession::lift(self.inner.next(reply)),
        }
    }

    fn advance(self, reply: Reply) -> (step: Step<Self, Result<bool, PhyError>>) {
        match self.inner.phase {
            Phase::Restoring { primary } => Step::Done(conclude_probe(primary, reply)),
            _ => lift_probe(self.inner.advance(reply)),
        }
    }
}

/// The first move of the probe.
pub open spec fn probe_step() -> Step<ProbeSession, Result<bool, PhyError>> {
    ProbeSession::lift(probe_access().first_step())
}

/// Probes the chip for the 2.5 Gb/s tier. Every transaction of the probe
/// takes the device lock itself.
pub fn is_supports_2_5gbps() -> (step: Step<ProbeSession, Result<bool, PhyError>>)
    ensures
        step == probe_step(),
{
    lift_probe(
        PagedSession::begin(
            PagedAccess {
                access: Access::Locking,
                page: PAGE_2500_ABILITY,
                transfer: Transfer::Read { reg: REG_2500_ABILITY },
            },
        ),
    )
}

/// The probe issues the transactions of the paged read of the ability
/// word, whatever the bus replies and however far the replies reach, and
/// finishes with the probe's own outcome: a failed read after a good bank
/// select gives "tier absent", with the restoring write still issued.
pub proof fn lemma_probe_conversation(replies: Seq<Reply>)
    ensures
        run(probe_step(), replies) == (Run {
            requests: probe_access().requests(replies),
            outcome: probe_outcome(replies),
        }),
        run(probe_step(), replies).requests == run(
            probe_access().first_step(),
            replies,
        ).requests,
{
    reveal_with_fuel(run, 4);
    lemma_paged_conversation(probe_access(), replies);
    assert(run(probe_step(), replies).requests =~= probe_access().requests(replies));
}

/// A read of the ability word that fails is no error. Once the bank is
/// selected and the read has failed, the probe still writes the default
/// bank back and then answers "tier absent", whether or not that write
/// went through.
pub proof fn lemma_failed_read_is_tier_absent(replies: Seq<Reply>)
    requires
        replies.len() >= 3,
        replies[0] is Completed,
        replies[1] is Failed,
    ensures
        run(probe_step(), replies).outcome == Some(Ok::<bool, PhyError>(false)),
        run(probe_step(), replies).requests == seq![
            probe_access().select(),
            probe_access().primary(),
            probe_access().restore(),
        ],
{
    lemma_probe_conversation(replies);
}

/// Lock discipline of the probe: each of its transactions takes the device
/// lock itself.
pub proof fn lemma_probe_is_locking(replies: Seq<Reply>, i: int)
    requires
        0 <= i < run(probe_step(), replies).requests.len(),
    ensures
        run(probe_step(), replies).requests[i].access() == Access::Locking,
{
    lemma_probe_conversation(replies);
    lemma_lock_discipline(probe_access(), replies, i);
}

/// Page restoration for the probe: on a fault-free transport it succeeds
/// and leaves the default bank selected.
pub proof fn lemma_probe_restores_page(page: u16, replies: Seq<Reply>, readback: Reply)
    requires
        replies.len() >= 3,
        fault_free(page, run(probe_step(), replies).requests, replies),
        faithful(page_after(page, run(probe_step(), replies).requests), read_page_request(), readback),
    ensures
        run(probe_step(), replies).outcome matches Some(Ok(_)),
        readback == Reply::Completed(0),
{
    lemma_probe_conversation(replies);
    lemma_paged_conversation(probe_access(), replies);
    lemma_page_restored(probe_access(), page, replies, readback);
}

/// Page restoration for the probe on a transport with faults: when the
/// bank select and the restoring write go through, the default bank is
/// selected afterwards, whatever the read of the ability word returned.
pub proof fn lemma_probe_restores_whatever_the_read(bank: Option<u16>, replies: Seq<Reply>)
    requires
        replies.len() >= 3,
        replies[0] is Completed,
        replies[2] is Completed,
    ensures
        bank_after(bank, run(probe_step(), replies).requests, replies) == Some(0u16),
{
    lemma_probe_conversation(replies);
    lemma_restored_whatever_the_access(probe_access(), bank, replies);
}

} // verus!
