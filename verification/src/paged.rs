//! The paged register protocol: select a bank, access one register in it,
//! put the default bank back.
//!
//! Nothing else in the crate writes to the bank-select register.

use vstd::prelude::*;
use crate::machine::{Machine, Run, Step, run};
use crate::port::{
    Access, PhyError, Reply, Request, bank_after, fault_free, faithful, page_after,
};
use crate::regs::{PAGE_DEFAULT, RTL821X_PAGE_SELECT};

verus! {

/// The one register access that is made while the bank is selected.
#[derive(Clone, Copy, Debug, PartialEq, Eq, Structural)]
pub enum Transfer {
    Read { reg: u32 },
    Write { reg: u32, value: u16 },
}

/// A register access inside a bank.
#[derive(Clone, Copy, Debug, PartialEq, Eq, Structural)]
pub struct PagedAccess {
    pub access: Access,
    pub page: u16,
    pub transfer: Transfer,
}

impl PagedAccess {
    /// The write that selects the bank.
    pub open spec fn select(self) -> Request {
        Request::Write { access: self.access, reg: RTL821X_PAGE_SELECT, value: self.page }
    }

    /// The access made inside the bank.
    pub open spec fn primary(self) -> Request {
        match self.transfer {
            Transfer::Read { reg } => Request::Read { access: self.access, reg },
            Transfer::Write { reg, value } => Request::Write { access: self.access, reg, value },
        }
    }

    /// The write that puts the default bank back.
    pub open spec fn restore(self) -> Request {
        Request::Write { access: self.access, reg: RTL821X_PAGE_SELECT, value: PAGE_DEFAULT }
    }

    /// What the access returns once the bank was selected, from the reply
    /// to the access itself and the reply to the restoring write. A failed
    /// access hides whatever happened to the restoring write; a successful
    /// write yields 0.
    pub open spec fn verdict(self, primary: Reply, restore: Reply) -> Result<i32, PhyError> {
        match (primary, restore) {
            (Reply::Failed(code), _) => Err(PhyError::Bus(code)),
            (Reply::Completed(_), Reply::Failed(code)) => Err(PhyError::Bus(code)),
            (Reply::Completed(word), Reply::Completed(_)) => match self.transfer {
                Transfer::Read { .. } => Ok(word),
                Transfer::Write { .. } => Ok(0i32),
            },
        }
    }

    /// The transactions issued in a conversation in which the bus has
    /// given `replies` so far. The write that selects the bank comes first.
    /// When it fails nothing else is attempted; otherwise the access is
    /// made and then, whatever the access returned, the default bank is
    /// written back.
    pub open spec fn requests(self, replies: Seq<Reply>) -> Seq<Request> {
        if replies.len() == 0 || replies[0] is Failed {
            seq![self.select()]
        } else if replies.len() == 1 {
            seq![self.select(), self.primary()]
        } else {
            seq![self.select(), self.primary(), self.restore()]
        }
    }

    /// Whether `replies` answer every transaction of the conversation.
    pub open spec fn answered(self, replies: Seq<Reply>) -> bool {
        replies.len() >= 3 || (replies.len() >= 1 && replies[0] is Failed)
    }

    /// What the conversation returns, once every transaction is answered.
    pub open spec fn outcome(self, replies: Seq<Reply>) -> Option<Result<i32, PhyError>> {
        if !self.answered(replies) {
            None
        } else {
            match replies[0] {
                Reply::Failed(code) => Some(Err(PhyError::Bus(code))),
                Reply::Completed(_) => Some(self.verdict(replies[1], replies[2])),
            }
        }
    }

    /// The whole conversation with a bus that gives `replies`.
    pub open spec fn conversation(self, replies: Seq<Reply>) -> Run<Result<i32, PhyError>> {
        Run { requests: self.requests(replies), outcome: self.outcome(replies) }
    }

    /// A read of `reg` in bank `page`, for callers that hold the device
    /// lock.
    pub open spec fn lockless_read(page: u16, reg: u32) -> PagedAccess {
        PagedAccess { access: Access::Lockless, page, transfer: Transfer::Read { reg } }
    }

    /// The first move of the conversation.
    pub open spec fn first_step(self) -> Step<PagedSession, Result<i32, PhyError>> {
        Step::Issue(self.select(), PagedSession { access: self, phase: Phase::Selecting })
    }
}

/// Which reply a session is waiting for.
#[derive(Clone, Copy, Debug, PartialEq, Eq, Structural)]
pub enum Phase {
    /// The reply to the bank-selecting write.
    Selecting,
    /// The reply to the access inside the bank.
    Transferring,
    /// The reply to the restoring write; `primary` is what the access
    /// inside the bank returned.
    Restoring { primary: Reply },
}

/// A paged access under way.
#[derive(Clone, Copy, Debug, PartialEq, Eq, Structural)]
pub struct PagedSession {
    pub access: PagedAccess,
    pub phase: Phase,
}

fn select_request(access: &PagedAccess) -> (request: Request)
    ensures
        request == access.select(),
{
    Request::Write { access: access.access, reg: RTL821X_PAGE_SELECT, value: access.page }
}

fn primary_request(access: &PagedAccess) -> (request: Request)
    ensures
        request == access.primary(),
{
    match access.transfer {
        Transfer::Read { reg } => Request::Read { access: access.access, reg },
        Transfer::Write { reg, value } => Request::Write { access: access.access, reg, value },
    }
}

fn restore_request(access: &PagedAccess) -> (request: Request)
    ensures
        request == access.restore(),
{
    Request::Write { access: access.access, reg: RTL821X_PAGE_SELECT, value: PAGE_DEFAULT }
}

fn conclude(access: &PagedAccess, primary: Reply, restore: Reply) -> (result: Result<i32, PhyError>)
    ensures
        result == access.verdict(primary, restore),
{
    match primary {
        Reply::Failed(code) => Err(PhyError::Bus(code)),
        Reply::Completed(word) => match restore {
            Reply::Failed(code) => Err(PhyError::Bus(code)),
            Reply::Completed(_) => match access.transfer {
                Transfer::Read { .. } => Ok(word),
                Transfer::Write { .. } => Ok(0),
            },
        },
    }
}

impl PagedSession {
    /// Starts a paged access: the first transaction is always the write
    /// that selects the bank.
    pub fn begin(access: PagedAccess) -> (step: Step<PagedSession, Result<i32, PhyError>>)
        ensures
            step == access.first_step(),
    {
        Step::Issue(select_request(&access), PagedSession { access, phase: Phase::Selecting })
    }
}

impl Machine for PagedSession {
    type Outcome = Result<i32, PhyError>;

    open spec fn next(self, reply: Reply) -> Step<Self, Result<i32, PhyError>> {
        match self.phase {
            Phase::Selecting => match reply {
                Reply::Failed(code) => Step::Done(Err(PhyError::Bus(code))),
                Reply::Completed(_) => Step::Issue(
                    self.access.primary(),
                    PagedSession { access: self.access, phase: Phase::Transferring },
                ),
            },
            Phase::Transferring => Step::Issue(
                self.access.restore(),
                PagedSession { access: self.access, phase: Phase::Restoring { primary: reply } },
            ),
            Phase::Restoring { primary } => Step::Done(self.access.verdict(primary, reply)),
        }
    }

    fn advance(self, reply: Reply) -> (step: Step<Self, Result<i32, PhyError>>) {
        match self.phase {
            Phase::Selecting => match reply {
                Reply::Failed(code) => Step::Done(Err(PhyError::Bus(code))),
                Reply::Completed(_) => Step::Issue(
                    primary_request(&self.access),
                    PagedSession { access: self.access, phase: Phase::Transferring },
                ),
            },
            Phase::Transferring => Step::Issue(
                restore_request(&self.access),
                PagedSession { access: self.access, phase: Phase::Restoring { primary: reply } },
            ),
            Phase::Restoring { primary } => Step::Done(conclude(&self.access, primary, reply)),
        }
    }
}

/// A single register transaction, made without switching banks.
#[derive(Clone, Copy, Debug, PartialEq, Eq, Structural)]
pub enum Direct {
    Reading,
    Writing,
}

impl Direct {
    /// What the transaction returns: the word read, 0 for a write that
    /// went through, the transport's code unchanged for a failure.
    pub open spec fn result(self, reply: Reply) -> Result<i32, PhyError> {
        match reply {
            Reply::Failed(code) => Err(PhyError::Bus(code)),
            Reply::Completed(word) => match self {
                Direct::Reading => Ok(word),
                Direct::Writing => Ok(0i32),
            },
        }
    }
}

impl Machine for Direct {
    type Outcome = Result<i32, PhyError>;

    open spec fn next(self, reply: Reply) -> Step<Self, Result<i32, PhyError>> {
        Step::Done(self.result(reply))
    }

    fn advance(self, reply: Reply) -> (step: Step<Self, Result<i32, PhyError>>) {
        match reply {
            Reply::Failed(code) => Step::Done(Err(PhyError::Bus(code))),
            Reply::Completed(word) => match self {
                Direct::Reading => Step::Done(Ok(word)),
                Direct::Writing => Step::Done(Ok(0)),
            },
        }
    }
}

/// The transaction that reads which bank is selected.
pub open spec fn read_page_request() -> Request {
    Request::Read { access: Access::Lockless, reg: RTL821X_PAGE_SELECT }
}

/// Reads which bank is selected. The caller holds the device lock.
pub fn read_page() -> (step: Step<Direct, Result<i32, PhyError>>)
    ensures
        step == Step::<Direct, Result<i32, PhyError>>::Issue(read_page_request(), Direct::Reading),
{
    Step::Issue(
        Request::Read { access: Access::Lockless, reg: RTL821X_PAGE_SELECT },
        Direct::Reading,
    )
}

/// Selects bank `page`, of which the register takes the low 16 bits. The
/// caller holds the device lock.
pub fn write_page(page: i32) -> (step: Step<Direct, Result<i32, PhyError>>)
    ensures
        step == Step::<Direct, Result<i32, PhyError>>::Issue(
            Request::Write {
                access: Access::Lockless,
                reg: RTL821X_PAGE_SELECT,
                value: page as u16,
            },
            Direct::Writing,
        ),
{
    let value: u16 = #[verifier::truncate]
    (page as u16);
    Step::Issue(
        Request::Write { access: Access::Lockless, reg: RTL821X_PAGE_SELECT, value },
        Direct::Writing,
    )
}

/// Reads register `reg` of bank `page` and puts the default bank back. The
/// caller holds the device lock.
pub fn read_in_page(page: u16, reg: u32) -> (step: Step<PagedSession, Result<i32, PhyError>>)
    ensures
        step == PagedAccess::lockless_read(page, reg).first_step(),
{
    PagedSession::begin(
        PagedAccess { access: Access::Lockless, page, transfer: Transfer::Read { reg } },
    )
}

/// A paged access holds exactly its conversation, whatever the bus
/// replies and however far the replies reach: it issues those transactions
/// and no others, and finishes with that outcome. It never takes more than
/// three transactions, and three replies always see it finished.
pub proof fn lemma_paged_conversation(access: PagedAccess, replies: Seq<Reply>)
    ensures
        run(access.first_step(), replies) == access.conversation(replies),
        1 <= run(access.first_step(), replies).requests.len() <= 3,
        replies.len() >= 3 ==> run(access.first_step(), replies).outcome is Some,
{
    reveal_with_fuel(run, 4);
    assert(run(access.first_step(), replies).requests =~= access.requests(replies));
}

/// Lock discipline. Every transaction of a paged access, the two writes
/// to the bank-select register included, is made the way the access asks
/// for: all of them take the device lock themselves, or none does.
pub proof fn lemma_lock_discipline(access: PagedAccess, replies: Seq<Reply>, i: int)
    requires
        0 <= i < run(access.first_step(), replies).requests.len(),
    ensures
        run(access.first_step(), replies).requests[i].access() == access.access,
{
    lemma_paged_conversation(access, replies);
}

/// Page restoration. On a fault-free transport a paged access succeeds
/// and leaves the default bank selected, whichever bank was selected
/// before: reading the bank-select register afterwards yields 0.
pub proof fn lemma_page_restored(
    access: PagedAccess,
    page: u16,
    replies: Seq<Reply>,
    readback: Reply,
)
    requires
        replies.len() >= 3,
        fault_free(page, run(access.first_step(), replies).requests, replies),
        faithful(
            page_after(page, run(access.first_step(), replies).requests),
            read_page_request(),
            readback,
        ),
    ensures
        run(access.first_step(), replies).outcome matches Some(Ok(_)),
        page_after(page, run(access.first_step(), replies).requests) == 0,
        readback == Reply::Completed(0),
{
    reveal_with_fuel(fault_free, 4);
    reveal_with_fuel(page_after, 4);
    lemma_paged_conversation(access, replies);
}

/// Page restoration on a transport with faults. When the bank select and
/// the restoring write go through, the default bank is selected
/// afterwards, whatever the access inside the bank replied and whichever
/// bank was selected before, known or not. The access returns an error
/// then exactly when the access inside the bank failed.
pub proof fn lemma_restored_whatever_the_access(
    access: PagedAccess,
    bank: Option<u16>,
    replies: Seq<Reply>,
)
    requires
        replies.len() >= 3,
        replies[0] is Completed,
        replies[2] is Completed,
    ensures
        run(access.first_step(), replies).requests == seq![
            access.select(),
            access.primary(),
            access.restore(),
        ],
        bank_after(bank, run(access.first_step(), replies).requests, replies) == Some(0u16),
        run(access.first_step(), replies).outcome matches Some(result) && (result is Err
            <==> replies[1] is Failed),
{
    reveal_with_fuel(bank_after, 4);
    lemma_paged_conversation(access, replies);
}

} // verus!
