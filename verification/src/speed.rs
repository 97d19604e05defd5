//! The speed decoder: from the vendor status word to the negotiated link
//! speed, applied on every refresh of the link status.

use vstd::prelude::*;
use crate::machine::{Machine, Run, Step, run};
use crate::paged::{
    PagedAccess, PagedSession, lemma_lock_discipline, lemma_page_restored,
    lemma_paged_conversation, lemma_restored_whatever_the_access, read_in_page,
    read_page_request,
};
use crate::port::{Access, PhyError, Reply, bank_after, fault_free, faithful, page_after};
use crate::regs::{PAGE_LINK_STATUS, REG_LINK_STATUS, RTLGEN_SPEED_MASK};

verus! {

/// The speed table: the values of the masked status field that stand for
/// a speed, each with its speed in Mb/s.
pub open spec fn speed_table() -> Map<i32, u32> {
    map![
        0x0000i32 => 10u32,
        0x0010i32 => 100u32,
        0x0020i32 => 1000u32,
        0x0200i32 => 10000u32,
        0x0210i32 => 2500u32,
        0x0220i32 => 5000u32,
    ]
}

/// The speed that the raw status word `raw` stands for: its masked field
/// looked up in the speed table. `None` means that the field names no
/// speed and the speed of the device is to be left as it is.
pub open spec fn speed_of(raw: i32) -> Option<u32> {
    let field = raw & RTLGEN_SPEED_MASK;
    if speed_table().dom().contains(field) {
        Some(speed_table()[field])
    } else {
        None
    }
}

/// Decodes the negotiated speed from a raw status word.
pub fn decode_speed(raw: i32) -> (speed: Option<u32>)
    ensures
        speed == speed_of(raw),
{
    let field: i32 = raw & RTLGEN_SPEED_MASK;
    if field == 0x0000 {
        Some(10)
    } else if field == 0x0010 {
        Some(100)
    } else if field == 0x0020 {
        Some(1000)
    } else if field == 0x0200 {
        Some(10000)
    } else if field == 0x0210 {
        Some(2500)
    } else if field == 0x0220 {
        Some(5000)
    } else {
        None
    }
}

/// The paged read that fetches the status word.
pub open spec fn status_access() -> PagedAccess {
    PagedAccess::lockless_read(PAGE_LINK_STATUS, REG_LINK_STATUS)
}

/// What the decoder hands out for the result of the paged read: the speed
/// to set on the device (`None`: leave it as it is), or the failure of the
/// read unchanged.
pub open spec fn speed_outcome(status: Result<i32, PhyError>) -> Result<Option<u32>, PhyError> {
    match status {
        Ok(raw) => Ok(speed_of(raw)),
        Err(error) => Err(error),
    }
}

/// A speed decoding under way: the paged read of the status word.
#[derive(Clone, Copy, Debug, PartialEq, Eq, Structural)]
pub struct SpeedSession {
    pub inner: PagedSession,
}

impl SpeedSession {
    /// A move of the paged read, seen as a move of the decoder.
    pub open spec fn lift(step: Step<PagedSession, Result<i32, PhyError>>) -> Step<
        SpeedSession,
        Result<Option<u32>, PhyError>,
    > {
        match step {
            Step::Issue(request, inner) => Step::Issue(request, SpeedSession { inner }),
            Step::Done(status) => Step::Done(speed_outcome(status)),
        }
    }
}

fn lift_speed(step: Step<PagedSession, Result<i32, PhyError>>) -> (lifted: Step<
    SpeedSession,
    Result<Option<u32>, PhyError>,
>)
    ensures
        lifted == SpeedSession::lift(step),
{
    match step {
        Step::Issue(request, inner) => Step::Issue(request, SpeedSession { inner }),
        Step::Done(Ok(raw)) => Step::Done(Ok(decode_speed(raw))),
        Step::Done(Err(error)) => Step::Done(Err(error)),
    }
}

impl Machine for SpeedSession {
    type Outcome = Result<Option<u32>, PhyError>;

    open spec fn next(self, reply: Reply) -> Step<Self, Result<Option<u32>, PhyError>> {
        SpeedSession::lift(self.inner.next(reply))
    }

    fn advance(self, reply: Reply) -> (step: Step<Self, Result<Option<u32>, PhyError>>) {
        lift_speed(self.inner.advance(reply))
    }
}

/// The first move of the decoder. With the link down it finishes at once,
/// successfully and with nothing to set; with the link up it reads the
/// status word through the paged protocol.
pub open spec fn set_speed_step(link: bool) -> Step<SpeedSession, Result<Option<u32>, PhyError>> {
    if link {
        SpeedSession::lift(status_access().first_step())
    } else {
        Step::Done(Ok(None))
    }
}

/// Decodes the negotiated speed of a device; `link` says whether its link
/// is up. The outcome `Ok(Some(speed))` asks the caller to set that speed
/// on the device, `Ok(None)` to leave the speed alone. The caller holds
/// the device lock.
pub fn set_speed(link: bool) -> (step: Step<SpeedSession, Result<Option<u32>, PhyError>>)
    ensures
        step == set_speed_step(link),
{
    if !link {
        return Step::Done(Ok(None));
    }
    lift_speed(read_in_page(PAGE_LINK_STATUS, REG_LINK_STATUS))
}

/// The first move of a link-status refresh, once the host's own refresh
/// has returned `refreshed` and left the link state `link`: a failed
/// refresh is passed on unchanged, a successful one is followed by the
/// speed decoder.
pub open spec fn read_status_step(refreshed: Result<(), i32>, link: bool) -> Step<
    SpeedSession,
    Result<Option<u32>, PhyError>,
> {
    match refreshed {
        Err(code) => Step::Done(Err(PhyError::Bus(code))),
        Ok(_) => set_speed_step(link),
    }
}

/// Refreshes the link status: the part that follows the host's own
/// refresh. The caller holds the device lock.
pub fn read_status(refreshed: Result<(), i32>, link: bool) -> (step: Step<
    SpeedSession,
    Result<Option<u32>, PhyError>,
>)
    ensures
        step == read_status_step(refreshed, link),
{
    match refreshed {
        Err(code) => Step::Done(Err(PhyError::Bus(code))),
        Ok(_) => set_speed(link),
    }
}

/// Totality of the speed mapping. Every raw status word either names
/// exactly one of the six speeds, by the value of its masked field, or
/// names none; the bits outside the mask never matter.
pub proof fn lemma_speed_mapping_total(raw: i32)
    ensures
        speed_of(raw) == speed_of(raw & RTLGEN_SPEED_MASK),
        speed_of(raw) == Some(10u32) <==> raw & RTLGEN_SPEED_MASK == 0x0000,
        speed_of(raw) == Some(100u32) <==> raw & RTLGEN_SPEED_MASK == 0x0010,
        speed_of(raw) == Some(1000u32) <==> raw & RTLGEN_SPEED_MASK == 0x0020,
        speed_of(raw) == Some(10000u32) <==> raw & RTLGEN_SPEED_MASK == 0x0200,
        speed_of(raw) == Some(2500u32) <==> raw & RTLGEN_SPEED_MASK == 0x0210,
        speed_of(raw) == Some(5000u32) <==> raw & RTLGEN_SPEED_MASK == 0x0220,
        speed_of(raw) matches Some(speed) ==> speed == 10 || speed == 100 || speed == 1000
            || speed == 2500 || speed == 5000 || speed == 10000,
        speed_of(raw) is None <==> !(raw & RTLGEN_SPEED_MASK == 0x0000 || raw & RTLGEN_SPEED_MASK
            == 0x0010 || raw & RTLGEN_SPEED_MASK == 0x0020 || raw & RTLGEN_SPEED_MASK == 0x0200
            || raw & RTLGEN_SPEED_MASK == 0x0210 || raw & RTLGEN_SPEED_MASK == 0x0220),
{
    assert((raw & 0x0630i32) & 0x0630i32 == raw & 0x0630i32) by (bit_vector);
}

/// The decoder's conversation is that of the paged read behind it, move
/// for move.
pub proof fn lemma_lift_run(step: Step<PagedSession, Result<i32, PhyError>>, replies: Seq<Reply>)
    ensures
        run(SpeedSession::lift(step), replies).requests == run(step, replies).requests,
        run(SpeedSession::lift(step), replies).outcome == match run(step, replies).outcome {
            Some(status) => Some(speed_outcome(status)),
            None => None,
        },
    decreases replies.len(),
{
    match step {
        Step::Done(_) => {},
        Step::Issue(_, inner) => {
            if replies.len() > 0 {
                lemma_lift_run(inner.next(replies[0]), replies.drop_first());
            }
        },
    }
}

/// Link-down short-circuit. With the link down the decoder issues no
/// transaction at all and succeeds, leaving the speed alone.
pub proof fn lemma_link_down_is_silent(replies: Seq<Reply>)
    ensures
        run(set_speed_step(false), replies) == (Run::<Result<Option<u32>, PhyError>> {
            requests: Seq::empty(),
            outcome: Some(Ok(None)),
        }),
{
}

/// With the link up the decoder holds the conversation of the paged read
/// of the status word, and hands out the speed that the word stands for,
/// or the failure of the read.
pub proof fn lemma_speed_conversation(replies: Seq<Reply>)
    ensures
        run(set_speed_step(true), replies) == (Run {
            requests: status_access().requests(replies),
            outcome: match status_access().outcome(replies) {
                Some(status) => Some(speed_outcome(status)),
                None => None,
            },
        }),
{
    lemma_lift_run(status_access().first_step(), replies);
    lemma_paged_conversation(status_access(), replies);
}

/// Lock discipline of the decoder: none of its transactions takes the
/// device lock, which the caller holds.
pub proof fn lemma_set_speed_is_lockless(link: bool, replies: Seq<Reply>, i: int)
    requires
        0 <= i < run(set_speed_step(link), replies).requests.len(),
    ensures
        run(set_speed_step(link), replies).requests[i].access() == Access::Lockless,
{
    if link {
        lemma_lift_run(status_access().first_step(), replies);
        lemma_lock_discipline(status_access(), replies, i);
    }
}

/// Page restoration for the decoder: on a fault-free transport it
/// succeeds and leaves the default bank selected.
pub proof fn lemma_set_speed_restores_page(page: u16, replies: Seq<Reply>, readback: Reply)
    requires
        replies.len() >= 3,
        fault_free(page, run(set_speed_step(true), replies).requests, replies),
        faithful(
            page_after(page, run(set_speed_step(true), replies).requests),
            read_page_request(),
            readback,
        ),
    ensures
        run(set_speed_step(true), replies).outcome matches Some(Ok(_)),
        readback == Reply::Completed(0),
{
    lemma_lift_run(status_access().first_step(), replies);
    lemma_page_restored(status_access(), page, replies, readback);
}

/// Page restoration for the decoder on a transport with faults: when the
/// bank select and the restoring write go through, the default bank is
/// selected afterwards, whatever the read of the status word returned; a
/// failure of that read is what the decoder hands out.
pub proof fn lemma_set_speed_restores_whatever_the_read(bank: Option<u16>, replies: Seq<Reply>)
    requires
        replies.len() >= 3,
        replies[0] is Completed,
        replies[2] is Completed,
    ensures
        bank_after(bank, run(set_speed_step(true), replies).requests, replies) == Some(0u16),
        replies[1] matches Reply::Failed(code) ==> run(set_speed_step(true), replies).outcome
            == Some(Err::<Option<u32>, PhyError>(PhyError::Bus(code))),
{
    lemma_speed_conversation(replies);
    lemma_paged_conversation(status_access(), replies);
    lemma_restored_whatever_the_access(status_access(), bank, replies);
}

} // verus!
