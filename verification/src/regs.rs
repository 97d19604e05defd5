//! Register map: identifiers, register numbers, banks and bit masks.

use vstd::prelude::*;

verus! {

/// Identifier of the generic fast/gigabit Ethernet transceiver.
pub const RTL_GENERIC_PHYID: u32 = 0x001cc800;

/// Mask under which the host compares identifiers before it offers a
/// device to this driver.
pub const RTL_GENERIC_PHYID_MASK: u32 = 0xfffffc00;

/// Register that selects the active bank.
pub const RTL821X_PAGE_SELECT: u32 = 0x1f;

/// The default bank, which holds the standard registers.
pub const PAGE_DEFAULT: u16 = 0;

/// Bank and register of the vendor word that tells whether the chip can
/// run at 2.5 Gb/s.
pub const PAGE_2500_ABILITY: u16 = 0xa61;

pub const REG_2500_ABILITY: u32 = 0x13;

/// Bit of the ability word that is set on chips with the 2.5 Gb/s tier.
pub const RTL_SUPPORTS_2500FULL: i32 = 0x2000;

/// Bank and register of the vendor status word that carries the
/// negotiated speed.
pub const PAGE_LINK_STATUS: u16 = 0xa43;

pub const REG_LINK_STATUS: u32 = 0x12;

/// Bits of the status word that encode the negotiated speed.
pub const RTLGEN_SPEED_MASK: i32 = 0x0630;

/// Standard extended-register domains.
pub const MDIO_MMD_PCS: i32 = 3;

pub const MDIO_MMD_AN: i32 = 7;

/// Standard extended-register addresses for low-power idle.
pub const MDIO_PCS_EEE_ABLE: u16 = 20;

pub const MDIO_AN_EEE_ADV: u16 = 60;

pub const MDIO_AN_EEE_LPABLE: u16 = 61;

/// Vendor banks and registers behind the low-power-idle registers.
pub const PAGE_EEE_ABLE: u16 = 0xa5c;

pub const REG_EEE_ABLE: u32 = 0x12;

pub const PAGE_EEE_AN: u16 = 0xa5d;

pub const REG_EEE_ADV: u32 = 0x10;

pub const REG_EEE_LPABLE: u32 = 0x11;

} // verus!
