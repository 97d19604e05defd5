//! The register access port: the transactions that the state machines ask
//! for and the replies they get back, and what a fault-free transport does
//! with them.

use vstd::prelude::*;
use crate::regs::RTL821X_PAGE_SELECT;

verus! {

/// How a transaction synchronises with the device-wide lock of the
/// management bus.
#[derive(Clone, Copy, Debug, PartialEq, Eq, Structural)]
pub enum Access {
    /// The transaction takes the lock itself and releases it afterwards.
    Locking,
    /// The caller already holds the lock; the transaction takes none.
    Lockless,
}

/// One register transaction that a machine asks its caller to perform.
#[derive(Clone, Copy, Debug, PartialEq, Eq, Structural)]
pub enum Request {
    Read { access: Access, reg: u32 },
    Write { access: Access, reg: u32, value: u16 },
}

impl Request {
    /// How the transaction synchronises with the device lock.
    pub open spec fn access(self) -> Access {
        match self {
            Request::Read { access, .. } => access,
            Request::Write { access, .. } => access,
        }
    }
}

/// What the bus answered to one [`Request`].
#[derive(Clone, Copy, Debug, PartialEq, Eq, Structural)]
pub enum Reply {
    /// The transaction went through. For a read the payload is the raw
    /// register word; for a write it carries no information.
    Completed(i32),
    /// The transaction failed with the given transport error code.
    Failed(i32),
}

/// Why an operation of this driver did not succeed.
#[derive(Clone, Copy, Debug, PartialEq, Eq, Structural)]
pub enum PhyError {
    /// A register transaction failed; the transport's code is kept as is.
    Bus(i32),
    /// The driver does not emulate the requested extended register. The
    /// host is expected to read this as "declined", not as a malfunction.
    NotSupported,
}

/// The bank that a fault-free device has selected after `request`, when
/// `page` was selected before: only a write to the bank-select register
/// changes it.
pub open spec fn page_after_one(page: u16, request: Request) -> u16 {
    match request {
        Request::Write { reg, value, .. } => if reg == RTL821X_PAGE_SELECT {
            value
        } else {
            page
        },
        Request::Read { .. } => page,
    }
}

/// The bank that a fault-free device has selected after `requests`.
pub open spec fn page_after(page: u16, requests: Seq<Request>) -> u16
    decreases requests.len(),
{
    if requests.len() == 0 {
        page
    } else {
        page_after(page_after_one(page, requests[0]), requests.drop_first())
    }
}

/// Whether `reply` is what a fault-free transport answers to `request`
/// while bank `page` is selected: every transaction completes, and reading
/// the bank-select register yields the selected bank.
pub open spec fn faithful(page: u16, request: Request, reply: Reply) -> bool {
    match request {
        Request::Read { reg, .. } => if reg == RTL821X_PAGE_SELECT {
            reply == Reply::Completed(page as i32)
        } else {
            reply is Completed
        },
        Request::Write { .. } => reply is Completed,
    }
}

/// Whether `replies` are the answers of a fault-free transport to
/// `requests`, on a device that starts with bank `page` selected.
pub open spec fn fault_free(page: u16, requests: Seq<Request>, replies: Seq<Reply>) -> bool
    decreases requests.len(),
{
    requests.len() == 0 || replies.len() == 0 || (faithful(page, requests[0], replies[0])
        && fault_free(
        page_after_one(page, requests[0]),
        requests.drop_first(),
        replies.drop_first(),
    ))
}

/// The bank that is selected after `request` was answered with `reply`,
/// on a transport that may fail; `None` where it cannot be known. A write
/// to the bank-select register that went through has selected its bank;
/// one that failed leaves the bank unknown; no other transaction touches
/// the bank, whether it went through or not.
pub open spec fn bank_after_one(bank: Option<u16>, request: Request, reply: Reply) -> Option<u16> {
    match request {
        Request::Write { reg, value, .. } => if reg != RTL821X_PAGE_SELECT {
            bank
        } else if reply is Completed {
            Some(value)
        } else {
            None
        },
        Request::Read { .. } => bank,
    }
}

/// The bank that is selected after `requests` were answered, in order,
/// with `replies`, on a transport that may fail; `None` where it cannot be
/// known. Requests without a reply are left out.
pub open spec fn bank_after(bank: Option<u16>, requests: Seq<Request>, replies: Seq<Reply>) -> Option<
    u16,
>
    decreases requests.len(),
{
    if requests.len() == 0 || replies.len() == 0 {
        bank
    } else {
        bank_after(
            bank_after_one(bank, requests[0], replies[0]),
            requests.drop_first(),
            replies.drop_first(),
        )
    }
}

} // verus!
