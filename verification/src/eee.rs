//! The low-power-idle bridge: the standard extended registers that carry
//! energy-efficient-Ethernet ability and advertisement, emulated on vendor
//! banks. The chip has no native support for those addresses.

use vstd::prelude::*;
use crate::machine::{Step, run};
use crate::paged::{
    PagedAccess, PagedSession, Transfer, lemma_lock_discipline, lemma_page_restored,
    lemma_paged_conversation, lemma_restored_whatever_the_access, read_page_request,
};
use crate::port::{Access, PhyError, Reply, bank_after, fault_free, faithful, page_after};
use crate::regs::{
    MDIO_AN_EEE_ADV, MDIO_AN_EEE_LPABLE, MDIO_MMD_AN, MDIO_MMD_PCS, MDIO_PCS_EEE_ABLE,
    PAGE_EEE_ABLE, PAGE_EEE_AN, REG_EEE_ABLE, REG_EEE_ADV, REG_EEE_LPABLE,
};

verus! {

/// Where an emulated extended register lives in vendor space.
#[derive(Clone, Copy, Debug, PartialEq, Eq, Structural)]
pub struct Route {
    pub page: u16,
    pub reg: u32,
    /// Whether the register may be written as well as read.
    pub writable: bool,
}

impl Route {
    /// The paged access that reads the register.
    pub open spec fn read_access(self) -> PagedAccess {
        PagedAccess {
            access: Access::Lockless,
            page: self.page,
            transfer: Transfer::Read { reg: self.reg },
        }
    }

    /// The paged access that writes `value` to the register.
    pub open spec fn write_access(self, value: u16) -> PagedAccess {
        PagedAccess {
            access: Access::Lockless,
            page: self.page,
            transfer: Transfer::Write { reg: self.reg, value },
        }
    }
}

/// The emulation table: the extended registers this driver stands in for,
/// by domain and address, each with its place in vendor space.
pub open spec fn emulation_table() -> Map<(i32, u16), Route> {
    map![
        (MDIO_MMD_PCS, MDIO_PCS_EEE_ABLE) => (Route {
            page: PAGE_EEE_ABLE,
            reg: REG_EEE_ABLE,
            writable: false,
        }),
        (MDIO_MMD_AN, MDIO_AN_EEE_ADV) => (Route {
            page: PAGE_EEE_AN,
            reg: REG_EEE_ADV,
            writable: true,
        }),
        (MDIO_MMD_AN, MDIO_AN_EEE_LPABLE) => (Route {
            page: PAGE_EEE_AN,
            reg: REG_EEE_LPABLE,
            writable: false,
        }),
    ]
}

/// The route of extended register `regnum` of domain `devnum`, if the
/// emulation table has one.
pub open spec fn route_of(devnum: i32, regnum: u16) -> Option<Route> {
    if emulation_table().dom().contains((devnum, regnum)) {
        Some(emulation_table()[(devnum, regnum)])
    } else {
        None
    }
}

/// Looks an extended register up in the emulation table.
pub fn route(devnum: i32, regnum: u16) -> (found: Option<Route>)
    ensures
        found == route_of(devnum, regnum),
{
    if devnum == MDIO_MMD_PCS {
        if regnum == MDIO_PCS_EEE_ABLE {
            return Some(Route { page: PAGE_EEE_ABLE, reg: REG_EEE_ABLE, writable: false });
        }
    } else if devnum == MDIO_MMD_AN {
        if regnum == MDIO_AN_EEE_ADV {
            return Some(Route { page: PAGE_EEE_AN, reg: REG_EEE_ADV, writable: true });
        }
        if regnum == MDIO_AN_EEE_LPABLE {
            return Some(Route { page: PAGE_EEE_AN, reg: REG_EEE_LPABLE, writable: false });
        }
    }
    None
}

/// The first move of reading extended register `regnum` of domain
/// `devnum`: a paged read at the register's route, or "not supported"
/// without any transaction where the table has no route.
pub open spec fn read_mmd_step(devnum: i32, regnum: u16) -> Step<
    PagedSession,
    Result<i32, PhyError>,
> {
    match route_of(devnum, regnum) {
        Some(found) => found.read_access().first_step(),
        None => Step::Done(Err(PhyError::NotSupported)),
    }
}

/// The first move of writing `val` to extended register `regnum` of domain
/// `devnum`: a paged write at the register's route, or "not supported"
/// without any transaction where the table has no writable route.
pub open spec fn write_mmd_step(devnum: i32, regnum: u16, val: u16) -> Step<
    PagedSession,
    Result<i32, PhyError>,
> {
    match route_of(devnum, regnum) {
        Some(found) => if found.writable {
            found.write_access(val).first_step()
        } else {
            Step::Done(Err(PhyError::NotSupported))
        },
        None => Step::Done(Err(PhyError::NotSupported)),
    }
}

/// Reads an extended register. The caller holds the device lock.
pub fn read_mmd(devnum: i32, regnum: u16) -> (step: Step<PagedSession, Result<i32, PhyError>>)
    ensures
        step == read_mmd_step(devnum, regnum),
{
    match route(devnum, regnum) {
        Some(found) => PagedSession::begin(
            PagedAccess {
                access: Access::Lockless,
                page: found.page,
                transfer: Transfer::Read { reg: found.reg },
            },
        ),
        None => Step::Done(Err(PhyError::NotSupported)),
    }
}

/// Writes an extended register. The caller holds the device lock. A
/// write that went through yields 0.
pub fn write_mmd(devnum: i32, regnum: u16, val: u16) -> (step: Step<
    PagedSession,
    Result<i32, PhyError>,
>)
    ensures
        step == write_mmd_step(devnum, regnum, val),
{
    match route(devnum, regnum) {
        Some(found) => {
            if found.writable {
                PagedSession::begin(
                    PagedAccess {
                        access: Access::Lockless,
                        page: found.page,
                        transfer: Transfer::Write { reg: found.reg, value: val },
                    },
                )
            } else {
                Step::Done(Err(PhyError::NotSupported))
            }
        },
        None => Step::Done(Err(PhyError::NotSupported)),
    }
}

/// Completeness of the emulation table. An address that is none of the
/// three emulated registers is declined for reading and for writing alike:
/// the answer is "not supported", never a bus error, and no transaction is
/// issued, so the selected bank is never touched.
pub proof fn lemma_unmapped_is_declined(devnum: i32, regnum: u16, val: u16, replies: Seq<Reply>)
    requires
        !(devnum == MDIO_MMD_PCS && regnum == MDIO_PCS_EEE_ABLE),
        !(devnum == MDIO_MMD_AN && regnum == MDIO_AN_EEE_ADV),
        !(devnum == MDIO_MMD_AN && regnum == MDIO_AN_EEE_LPABLE),
    ensures
        read_mmd_step(devnum, regnum) == Step::<PagedSession, Result<i32, PhyError>>::Done(
            Err(PhyError::NotSupported),
        ),
        write_mmd_step(devnum, regnum, val) == Step::<PagedSession, Result<i32, PhyError>>::Done(
            Err(PhyError::NotSupported),
        ),
        run(read_mmd_step(devnum, regnum), replies).requests.len() == 0,
        run(write_mmd_step(devnum, regnum, val), replies).requests.len() == 0,
{
}

/// A register that the table serves for reading only is declined for
/// writing, again without any transaction.
pub proof fn lemma_read_only_is_declined(devnum: i32, regnum: u16, val: u16)
    requires
        route_of(devnum, regnum) matches Some(found) && !found.writable,
    ensures
        write_mmd_step(devnum, regnum, val) == Step::<PagedSession, Result<i32, PhyError>>::Done(
            Err(PhyError::NotSupported),
        ),
{
}

/// Lock discipline of the bridge: none of its transactions takes the
/// device lock, which the caller holds.
pub proof fn lemma_mmd_is_lockless(devnum: i32, regnum: u16, val: u16, replies: Seq<Reply>, i: int)
    ensures
        0 <= i < run(read_mmd_step(devnum, regnum), replies).requests.len() ==> run(
            read_mmd_step(devnum, regnum),
            replies,
        ).requests[i].access() == Access::Lockless,
        0 <= i < run(write_mmd_step(devnum, regnum, val), replies).requests.len() ==> run(
            write_mmd_step(devnum, regnum, val),
            replies,
        ).requests[i].access() == Access::Lockless,
{
    if let Some(found) = route_of(devnum, regnum) {
        if 0 <= i < run(read_mmd_step(devnum, regnum), replies).requests.len() {
            lemma_lock_discipline(found.read_access(), replies, i);
        }
        if found.writable && 0 <= i < run(
            write_mmd_step(devnum, regnum, val),
            replies,
        ).requests.len() {
            lemma_lock_discipline(found.write_access(val), replies, i);
        }
    }
}

/// Page restoration for emulated reads: on a fault-free transport an
/// emulated read succeeds and leaves the default bank selected.
pub proof fn lemma_read_mmd_restores_page(
    devnum: i32,
    regnum: u16,
    page: u16,
    replies: Seq<Reply>,
    readback: Reply,
)
    requires
        route_of(devnum, regnum) is Some,
        replies.len() >= 3,
        fault_free(page, run(read_mmd_step(devnum, regnum), replies).requests, replies),
        faithful(
            page_after(page, run(read_mmd_step(devnum, regnum), replies).requests),
            read_page_request(),
            readback,
        ),
    ensures
        run(read_mmd_step(devnum, regnum), replies).outcome matches Some(Ok(_)),
        readback == Reply::Completed(0),
{
    lemma_page_restored(route_of(devnum, regnum).unwrap().read_access(), page, replies, readback);
}

/// Page restoration for emulated writes: on a fault-free transport an
/// emulated write succeeds and leaves the default bank selected.
pub proof fn lemma_write_mmd_restores_page(
    devnum: i32,
    regnum: u16,
    val: u16,
    page: u16,
    replies: Seq<Reply>,
    readback: Reply,
)
    requires
        route_of(devnum, regnum) matches Some(found) && found.writable,
        replies.len() >= 3,
        fault_free(page, run(write_mmd_step(devnum, regnum, val), replies).requests, replies),
        faithful(
            page_after(page, run(write_mmd_step(devnum, regnum, val), replies).requests),
            read_page_request(),
            readback,
        ),
    ensures
        run(write_mmd_step(devnum, regnum, val), replies).outcome matches Some(Ok(_)),
        readback == Reply::Completed(0),
{
    lemma_page_restored(
        route_of(devnum, regnum).unwrap().write_access(val),
        page,
        replies,
        readback,
    );
}

/// Page restoration for emulated reads on a transport with faults: when
/// the bank select and the restoring write go through, the default bank is
/// selected afterwards, whatever the read itself returned; a failure of
/// the read is what the bridge hands out.
pub proof fn lemma_read_mmd_restores_whatever_the_read(
    devnum: i32,
    regnum: u16,
    bank: Option<u16>,
    replies: Seq<Reply>,
)
    requires
        route_of(devnum, regnum) is Some,
        replies.len() >= 3,
        replies[0] is Completed,
        replies[2] is Completed,
    ensures
        bank_after(bank, run(read_mmd_step(devnum, regnum), replies).requests, replies) == Some(
            0u16,
        ),
        replies[1] matches Reply::Failed(code) ==> run(
            read_mmd_step(devnum, regnum),
            replies,
        ).outcome == Some(Err::<i32, PhyError>(PhyError::Bus(code))),
{
    let access = route_of(devnum, regnum).unwrap().read_access();
    lemma_restored_whatever_the_access(access, bank, replies);
    lemma_paged_conversation(access, replies);
}

/// Page restoration for emulated writes on a transport with faults: when
/// the bank select and the restoring write go through, the default bank is
/// selected afterwards, whatever the write itself returned; a failure of
/// the write is what the bridge hands out.
pub proof fn lemma_write_mmd_restores_whatever_the_write(
    devnum: i32,
    regnum: u16,
    val: u16,
    bank: Option<u16>,
    replies: Seq<Reply>,
)
    requires
        route_of(devnum, regnum) matches Some(found) && found.writable,
        replies.len() >= 3,
        replies[0] is Completed,
        replies[2] is Completed,
    ensures
        bank_after(bank, run(write_mmd_step(devnum, regnum, val), replies).requests, replies)
            == Some(0u16),
        replies[1] matches Reply::Failed(code) ==> run(
            write_mmd_step(devnum, regnum, val),
            replies,
        ).outcome == Some(Err::<i32, PhyError>(PhyError::Bus(code))),
{
    let access = route_of(devnum, regnum).unwrap().write_access(val);
    lemma_restored_whatever_the_access(access, bank, replies);
    lemma_paged_conversation(access, replies);
}

} // verus!
