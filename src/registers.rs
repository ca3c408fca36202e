//! Bit layouts of the IEEE 802.3 clause 22 management registers.
//!
//! Each register is a newtype over its raw 16-bit contents. The associated
//! constants name single bits (or bit fields) of the register; the view of a
//! register value is its raw bits.
use vstd::prelude::*;

verus! {

/// True when every bit of `mask` is set in `bits`.
pub open spec fn has_bits(bits: u16, mask: u16) -> bool {
    bits & mask == mask
}

/// The Basic Control Register (register 0).
#[derive(Clone, Copy, Debug, PartialEq, Eq, Structural)]
pub struct Bcr {
    /// The raw contents.
    pub bits: u16,
}

impl View for Bcr {
    type V = u16;

    open spec fn view(&self) -> u16 {
        self.bits
    }
}

impl Bcr {
    /// The register address of the BCR.
    pub const ADDRESS: u8 = 0;
    /// Software reset; self-clearing.
    pub const RESET: u16 = 0x8000;
    /// Loopback mode.
    pub const LOOPBACK: u16 = 0x4000;
    /// Least significant bit of the speed selection.
    pub const SPEED_SEL_LSB: u16 = 0x2000;
    /// Autonegotiation enable.
    pub const AUTONEG_ENABLE: u16 = 0x1000;
    /// Power down.
    pub const POWER_DOWN: u16 = 0x0800;
    /// Electrically isolate the PHY from the MII.
    pub const ISOLATE: u16 = 0x0400;
    /// Restart autonegotiation; self-clearing.
    pub const RESTART_AUTONEG: u16 = 0x0200;
    /// Full duplex mode.
    pub const DUPLEX_MODE: u16 = 0x0100;
    /// Collision test.
    pub const COLLISION_TEST: u16 = 0x0080;
    /// Most significant bit of the speed selection.
    pub const SPEED_SEL_MSB: u16 = 0x0040;
    /// Unidirectional enable.
    pub const UNIDIRECTIONAL_ENABLE: u16 = 0x0020;
    /// All defined bits of the BCR.
    pub const ALL: u16 = 0xffe0;

    /// The register with the defined bits of `bits`, and the others clear.
    pub fn from_bits_truncate(bits: u16) -> (r: Bcr)
        ensures
            r@ == bits & Bcr::ALL,
    {
        Bcr { bits: bits & Bcr::ALL }
    }

    /// The register with no bit set.
    pub fn empty() -> (r: Bcr)
        ensures
            r@ == 0,
    {
        Bcr { bits: 0 }
    }

    /// The raw contents.
    pub fn bits(&self) -> (r: u16)
        ensures
            r == self@,
    {
        self.bits
    }

    /// Whether every bit of `mask` is set.
    pub fn contains(&self, mask: u16) -> (r: bool)
        ensures
            r == has_bits(self@, mask),
    {
        self.bits & mask == mask
    }

    /// Sets the bits of `mask`.
    pub fn insert(&mut self, mask: u16)
        ensures
            final(self)@ == old(self)@ | mask,
    {
        self.bits = self.bits | mask;
    }

    /// Sets (`value` true) or clears the bits of `mask`.
    pub fn set(&mut self, mask: u16, value: bool)
        ensures
            final(self)@ == if value {
                old(self)@ | mask
            } else {
                old(self)@ & !mask
            },
    {
        if value {
            self.bits = self.bits | mask;
        } else {
            self.bits = self.bits & !mask;
        }
    }

    /// Whether the reset bit is set.
    pub fn is_resetting(&self) -> (r: bool)
        ensures
            r == has_bits(self@, Bcr::RESET),
    {
        self.contains(Bcr::RESET)
    }

    /// Sets or clears the reset bit.
    pub fn reset(&mut self, value: bool)
        ensures
            final(self)@ == if value {
                old(self)@ | Bcr::RESET
            } else {
                old(self)@ & !Bcr::RESET
            },
    {
        self.set(Bcr::RESET, value);
    }

    /// Sets or clears the autonegotiation enable bit.
    pub fn set_autonegotiation(&mut self, value: bool)
        ensures
            final(self)@ == if value {
                old(self)@ | Bcr::AUTONEG_ENABLE
            } else {
                old(self)@ & !Bcr::AUTONEG_ENABLE
            },
    {
        self.set(Bcr::AUTONEG_ENABLE, value);
    }

    /// Sets the restart autonegotiation bit.
    pub fn restart_autonegotiation(&mut self)
        ensures
            final(self)@ == old(self)@ | Bcr::RESTART_AUTONEG,
    {
        self.insert(Bcr::RESTART_AUTONEG);
    }
}

/// The Basic Status Register (register 1).
#[derive(Clone, Copy, Debug, PartialEq, Eq, Structural)]
pub struct Bsr {
    /// The raw contents.
    pub bits: u16,
}

impl View for Bsr {
    type V = u16;

    open spec fn view(&self) -> u16 {
        self.bits
    }
}

impl Bsr {
    /// The register address of the BSR.
    pub const ADDRESS: u8 = 1;
    /// 100BASE-T4 capable.
    pub const BASE100_T4: u16 = 0x8000;
    /// 100BASE-X full duplex capable.
    pub const BASE100_X_FD: u16 = 0x4000;
    /// 100BASE-X half duplex capable.
    pub const BASE100_X_HD: u16 = 0x2000;
    /// 10 Mb/s full duplex capable.
    pub const MBPS10_FD: u16 = 0x1000;
    /// 10 Mb/s half duplex capable.
    pub const MBPS10_HD: u16 = 0x0800;
    /// 100BASE-T2 full duplex capable.
    pub const BASE100_T2_FD: u16 = 0x0400;
    /// 100BASE-T2 half duplex capable.
    pub const BASE100_T2_HD: u16 = 0x0200;
    /// Extended status information in register 15.
    pub const EXTENDED_STATUS: u16 = 0x0100;
    /// Able to transmit regardless of link state.
    pub const UNIDIRECTIONAL: u16 = 0x0080;
    /// Accepts management frames with the preamble suppressed.
    pub const MF_PREAMBLE_SUPPRESSION: u16 = 0x0040;
    /// Autonegotiation process completed.
    pub const AUTONEG_COMPLETE: u16 = 0x0020;
    /// Remote fault detected.
    pub const REMOTE_FAULT: u16 = 0x0010;
    /// Able to perform autonegotiation.
    pub const AUTONEG_ABLE: u16 = 0x0008;
    /// The link is up.
    pub const LINK_STATUS: u16 = 0x0004;
    /// Jabber condition detected.
    pub const JABBER_DETECT: u16 = 0x0002;
    /// Extended register capabilities.
    pub const EXTENDED_CAPABILITIES: u16 = 0x0001;

    /// The register holding `bits` (every bit of the BSR is defined).
    pub fn from_bits_truncate(bits: u16) -> (r: Bsr)
        ensures
            r@ == bits,
    {
        Bsr { bits }
    }

    /// The raw contents.
    pub fn bits(&self) -> (r: u16)
        ensures
            r == self@,
    {
        self.bits
    }

    /// Whether every bit of `mask` is set.
    pub fn contains(&self, mask: u16) -> (r: bool)
        ensures
            r == has_bits(self@, mask),
    {
        self.bits & mask == mask
    }

    /// Whether the PHY reports its link as up.
    pub fn phy_link_up(&self) -> (r: bool)
        ensures
            r == has_bits(self@, Bsr::LINK_STATUS),
    {
        self.contains(Bsr::LINK_STATUS)
    }

    /// Whether the PHY reports autonegotiation as completed.
    pub fn autoneg_completed(&self) -> (r: bool)
        ensures
            r == has_bits(self@, Bsr::AUTONEG_COMPLETE),
    {
        self.contains(Bsr::AUTONEG_COMPLETE)
    }
}

/// The autonegotiation capability registers: the local advertisement
/// (register 4) and the link partner's ability (register 5).
#[derive(Clone, Copy, Debug, PartialEq, Eq, Structural)]
pub struct AutoNegCap {
    /// The raw contents.
    pub bits: u16,
}

impl View for AutoNegCap {
    type V = u16;

    open spec fn view(&self) -> u16 {
        self.bits
    }
}

impl AutoNegCap {
    /// The register address of the local advertisement.
    pub const LOCAL_CAP_ADDRESS: u8 = 4;
    /// The register address of the link partner's ability.
    pub const PARTNER_CAP_ADDRESS: u8 = 5;
    /// Next page.
    pub const NEXT_PAGE: u16 = 0x8000;
    /// Acknowledge.
    pub const ACKNOWLEDGE: u16 = 0x4000;
    /// Remote fault.
    pub const REMOTE_FAULT: u16 = 0x2000;
    /// Extended next page.
    pub const EXTENDED_NEXT_PAGE: u16 = 0x1000;
    /// Asymmetric PAUSE.
    pub const ASYMMETRIC_PAUSE: u16 = 0x0800;
    /// Symmetric PAUSE.
    pub const PAUSE: u16 = 0x0400;
    /// 100BASE-T4.
    pub const BASE100_T4: u16 = 0x0200;
    /// 100BASE-TX full duplex.
    pub const BASE100_TX_FD: u16 = 0x0100;
    /// 100BASE-TX.
    pub const BASE100_TX: u16 = 0x0080;
    /// 10BASE-T full duplex.
    pub const BASE10_T_FD: u16 = 0x0040;
    /// 10BASE-T.
    pub const BASE10_T: u16 = 0x0020;
    /// The bits of the selector field.
    pub const SEL_MASK: u16 = 0x001f;
    /// Selector: IEEE Std 802.3.
    pub const SEL_802_3: u16 = 0x0001;
    /// Selector: IEEE Std 802.9 ISLAN-16T.
    pub const SEL_802_9_ISLAN_16T: u16 = 0x0002;
    /// Selector: IEEE Std 802.5.
    pub const SEL_802_5: u16 = 0x0003;
    /// Selector: IEEE Std 1394.
    pub const SEL_1394: u16 = 0x0004;

    /// The register holding `bits` (every bit of it is defined).
    pub fn from_bits_truncate(bits: u16) -> (r: AutoNegCap)
        ensures
            r@ == bits,
    {
        AutoNegCap { bits }
    }

    /// The register with no bit set.
    pub fn empty() -> (r: AutoNegCap)
        ensures
            r@ == 0,
    {
        AutoNegCap { bits: 0 }
    }

    /// The raw contents.
    pub fn bits(&self) -> (r: u16)
        ensures
            r == self@,
    {
        self.bits
    }

    /// Whether every bit of `mask` is set.
    pub fn contains(&self, mask: u16) -> (r: bool)
        ensures
            r == has_bits(self@, mask),
    {
        self.bits & mask == mask
    }

    /// Sets the bits of `mask`.
    pub fn insert(&mut self, mask: u16)
        ensures
            final(self)@ == old(self)@ | mask,
    {
        self.bits = self.bits | mask;
    }

    /// The bits of the selector field.
    pub fn selector_bits(&self) -> (r: u16)
        ensures
            r == self@ & AutoNegCap::SEL_MASK,
    {
        self.bits & AutoNegCap::SEL_MASK
    }
}

/// The Extended Status Register (register 15).
#[derive(Clone, Copy, Debug, PartialEq, Eq, Structural)]
pub struct Esr {
    /// The raw contents.
    pub bits: u16,
}

impl View for Esr {
    type V = u16;

    open spec fn view(&self) -> u16 {
        self.bits
    }
}

impl Esr {
    /// The register address of the ESR.
    pub const ADDRESS: u8 = 15;
    /// 1000BASE-X full duplex capable.
    pub const BASE1000_X_FD: u16 = 0x8000;
    /// 1000BASE-X half duplex capable.
    pub const BASE1000_X_HD: u16 = 0x4000;
    /// 1000BASE-T full duplex capable.
    pub const BASE1000_T_FD: u16 = 0x2000;
    /// 1000BASE-T half duplex capable.
    pub const BASE1000_T_HD: u16 = 0x1000;
    /// All defined bits of the ESR.
    pub const ALL: u16 = 0xf000;

    /// The register with the defined bits of `bits`, and the others clear.
    pub fn from_bits_truncate(bits: u16) -> (r: Esr)
        ensures
            r@ == bits & Esr::ALL,
    {
        Esr { bits: bits & Esr::ALL }
    }

    /// The raw contents.
    pub fn bits(&self) -> (r: u16)
        ensures
            r == self@,
    {
        self.bits
    }

    /// Whether every bit of `mask` is set.
    pub fn contains(&self, mask: u16) -> (r: bool)
        ensures
            r == has_bits(self@, mask),
    {
        self.bits & mask == mask
    }
}

/// The Autonegotiation Expansion register (register 6).
#[derive(Clone, Copy, Debug, PartialEq, Eq, Structural)]
pub struct Ane {
    /// The raw contents.
    pub bits: u16,
}

impl View for Ane {
    type V = u16;

    open spec fn view(&self) -> u16 {
        self.bits
    }
}

impl Ane {
    /// The register address of the ANE.
    pub const ADDRESS: u8 = 6;
    /// The link partner is able to autonegotiate.
    pub const LP_AUTONEG_ABLE: u16 = 0x0001;
    /// A new page has been received.
    pub const PAGE_RECEIVED: u16 = 0x0002;
    /// The local device is next page able.
    pub const NEXT_PAGE_ABLE: u16 = 0x0004;
    /// The link partner is next page able.
    pub const LP_NEXT_PAGE_ABLE: u16 = 0x0008;
    /// A fault was detected by the parallel detection function.
    pub const PARALLEL_DETECTION_FAULT: u16 = 0x0010;
    /// All defined bits of the ANE.
    pub const ALL: u16 = 0x001f;

    /// The register with the defined bits of `bits`, and the others clear.
    pub fn from_bits_truncate(bits: u16) -> (r: Ane)
        ensures
            r@ == bits & Ane::ALL,
    {
        Ane { bits: bits & Ane::ALL }
    }

    /// The raw contents.
    pub fn bits(&self) -> (r: u16)
        ensures
            r == self@,
    {
        self.bits
    }

    /// Whether every bit of `mask` is set.
    pub fn contains(&self, mask: u16) -> (r: bool)
        ensures
            r == has_bits(self@, mask),
    {
        self.bits & mask == mask
    }
}

} // verus!
