//! The TI DP83xxx series: standard registers, plus vendor registers reached
//! through a page-select register.
use crate::caps::{AutoNegotiationAdvertisement, ExtendedPhyStatus, Pause, SelectorField};
use crate::controller::Phy;
use crate::miim::{read_op, write_op, BusOp, Miim};
use crate::phy::PhySpeed;
use crate::ptp::PTP;
use crate::registers::{has_bits, Bsr, Esr};
use vstd::prelude::*;

verus! {

/// The register that selects the page of the extended registers.
pub const PAGE_REG: u8 = 0x13;

/// The bus operations of an extended access: write `page` to the page-select
/// register, then perform `target` on an offset of that page.
pub open spec fn paged(phy: u8, page: u16, target: BusOp) -> Seq<BusOp> {
    seq![write_op(phy, PAGE_REG, page), target]
}

/// A DP83xxx series PHY.
///
/// Besides its bus and address it keeps, as ghost state that is erased at run
/// time, the register operations it has issued; the contracts of its methods
/// are stated over that history.
pub struct DP83XXX<MIIM: Miim, const PTP: bool> {
    phy_addr: u8,
    miim: MIIM,
    log: Ghost<Seq<BusOp>>,
}

/// DP83640 with hardware PTP stamping
pub type DP83640<MIIM> = DP83XXX<MIIM, true>;

/// DP83848
pub type DP83848<MIIM> = DP83XXX<MIIM, false>;

/// The page of the interrupt register.
pub const INTERRUPT_REG_PAGE: u16 = 0x00;

/// The offset of the interrupt register in its page.
pub const INTERRUPT_REG_OFFSET: u8 = 0x1b;

/// The bit of the interrupt register that enables the link status change
/// interrupt.
pub const INTERRUPT_REG_EN_LINK_CHANGE: u16 = 0x0020;

/// A mask for determining if the Link Status Change Interrupt occurred
pub const INTERRUPT_REG_INT_LINK_CHANGE: u16 = 0x2000;

impl<MIIM: Miim, const PTP_EN: bool> DP83XXX<MIIM, PTP_EN> {
    /// Create a new DP83xxx at `phy_addr`, backed by the given `miim`.
    pub fn new(miim: MIIM, phy_addr: u8) -> (r: Self)
        ensures
            r.bus() == miim,
            r.address() == phy_addr,
            r.history() == Seq::<BusOp>::empty(),
    {
        Self { phy_addr, miim, log: Ghost(Seq::empty()) }
    }

    /// The management bus of this PHY.
    pub closed spec fn bus(&self) -> MIIM {
        self.miim
    }

    /// Enable the link status change interrupt
    pub fn interrupt_enable(&mut self)
        ensures
            final(self).address() == old(self).address(),
            final(self).history() == old(self).history() + paged(
                old(self).address(),
                INTERRUPT_REG_PAGE,
                write_op(old(self).address(), INTERRUPT_REG_OFFSET, INTERRUPT_REG_EN_LINK_CHANGE),
            ),
    {
        self.write_ext((INTERRUPT_REG_PAGE, INTERRUPT_REG_OFFSET), INTERRUPT_REG_EN_LINK_CHANGE);
    }

    /// Get the link speed at which the PHY is currently operating, or `None`
    /// if the link is down.
    pub fn link_speed(&mut self) -> (r: Option<PhySpeed>)
        ensures
            ({
                let h = final(self).history();
                let v = h.last().value;
                &&& final(self).address() == old(self).address()
                &&& h == old(self).history().push(read_op(old(self).address(), PHYSTS::ADDRESS, v))
                &&& r == phy_speed_of_bits(v)
            }),
    {
        let raw = self.read(PHYSTS::ADDRESS);
        proof {
            lemma_physts_flags_defined(raw);
        }
        let physts = PHYSTS::from_bits_truncate(raw);
        physts.speed()
    }

    /// Get the value of the interrupt register.
    pub fn get_interrupt_reg_val(&mut self) -> (r: u16)
        ensures
            final(self).address() == old(self).address(),
            final(self).history() == old(self).history() + paged(
                old(self).address(),
                INTERRUPT_REG_PAGE,
                read_op(old(self).address(), INTERRUPT_REG_OFFSET, r),
            ),
    {
        self.read_ext((INTERRUPT_REG_PAGE, INTERRUPT_REG_OFFSET))
    }

    /// Check whether a link is established: autonegotiation has completed
    /// and the link is up. The link status is only read once autonegotiation
    /// is seen completed.
    pub fn link_established(&mut self) -> (r: bool)
        ensures
            ({
                let h0 = old(self).history();
                let h = final(self).history();
                let a = old(self).address();
                let v = h[h0.len() as int].value;
                let w = h[h0.len() + 1int].value;
                &&& final(self).address() == a
                &&& if has_bits(v, Bsr::AUTONEG_COMPLETE) {
                    &&& h == h0.push(read_op(a, Bsr::ADDRESS, v)).push(read_op(a, Bsr::ADDRESS, w))
                    &&& r == has_bits(w, Bsr::LINK_STATUS)
                } else {
                    &&& h == h0.push(read_op(a, Bsr::ADDRESS, v))
                    &&& !r
                }
            }),
    {
        self.autoneg_completed() && self.phy_link_up()
    }

    /// Release the underlying management bus
    pub fn release(self) -> (r: MIIM)
        ensures
            r == self.bus(),
    {
        self.miim
    }

    /// Write `value` to the extended register at `address_ext` (page,
    /// offset): the page is selected immediately before the write, every
    /// time.
    pub fn write_ext(&mut self, address_ext: (u16, u8), value: u16)
        ensures
            final(self).address() == old(self).address(),
            final(self).history() == old(self).history() + paged(
                old(self).address(),
                address_ext.0,
                write_op(old(self).address(), address_ext.1, value),
            ),
    {
        self.write(PAGE_REG, address_ext.0);
        self.write(address_ext.1, value);
        proof {
            let h0 = old(self).history();
            let a = old(self).address();
            assert(self.history() =~= h0 + paged(
                a,
                address_ext.0,
                write_op(a, address_ext.1, value),
            ));
        }
    }

    /// Read the extended register at `address_ext` (page, offset): the page
    /// is selected immediately before the read, every time.
    pub fn read_ext(&mut self, address_ext: (u16, u8)) -> (r: u16)
        ensures
            final(self).address() == old(self).address(),
            final(self).history() == old(self).history() + paged(
                old(self).address(),
                address_ext.0,
                read_op(old(self).address(), address_ext.1, r),
            ),
    {
        self.write(PAGE_REG, address_ext.0);
        let r = self.read(address_ext.1);
        proof {
            let h0 = old(self).history();
            let a = old(self).address();
            assert(self.history() =~= h0 + paged(a, address_ext.0, read_op(a, address_ext.1, r)));
        }
        r
    }
}

impl<MIIM: Miim, const PTP_EN: bool> Phy<MIIM> for DP83XXX<MIIM, PTP_EN> {
    closed spec fn history(&self) -> Seq<BusOp> {
        self.log@
    }

    closed spec fn address(&self) -> u8 {
        self.phy_addr
    }

    open spec fn has_esr(&self) -> bool {
        false
    }

    fn best_supported_advertisement(&self) -> (r: AutoNegotiationAdvertisement)
        ensures
            r == (AutoNegotiationAdvertisement {
                selector_field: Some(SelectorField::Std802_3),
                hd_10base_t: true,
                fd_10base_t: true,
                hd_100base_tx: true,
                fd_100base_tx: true,
                base100_t4: true,
                pause: Pause::NoPause,
            }),
    {
        AutoNegotiationAdvertisement {
            selector_field: Some(SelectorField::Std802_3),
            hd_10base_t: true,
            fd_10base_t: true,
            hd_100base_tx: true,
            fd_100base_tx: true,
            base100_t4: true,
            pause: Pause::NoPause,
        }
    }

    fn get_miim(&mut self) -> &mut MIIM {
        &mut self.miim
    }

    fn get_phy_addr(&self) -> u8 {
        self.phy_addr
    }

    fn read(&mut self, address: u8) -> (r: u16) {
        let r = self.miim.read(self.phy_addr, address);
        self.log = Ghost(self.log@.push(read_op(self.phy_addr, address, r)));
        r
    }

    fn write(&mut self, address: u8, value: u16) {
        self.miim.write(self.phy_addr, address, value);
        self.log = Ghost(self.log@.push(write_op(self.phy_addr, address, value)));
    }

    /// The DP83xxx series has no extended status register.
    fn esr(&mut self) -> (r: Option<Esr>)
        ensures
            r is None,
            final(self).history() == old(self).history(),
            final(self).address() == old(self).address(),
    {
        None
    }

    /// The DP83xxx series has no extended status register.
    fn extended_status(&mut self) -> (r: Option<ExtendedPhyStatus>)
        ensures
            r is None,
            final(self).history() == old(self).history(),
            final(self).address() == old(self).address(),
    {
        None
    }
}

/// The PHY Status Register of the DP83xxx series.
#[derive(Clone, Copy, Debug, PartialEq, Eq, Structural)]
pub struct PHYSTS {
    /// The raw contents.
    pub bits: u16,
}

impl View for PHYSTS {
    type V = u16;

    open spec fn view(&self) -> u16 {
        self.bits
    }
}

/// The link speed and duplex mode that the raw bits of a PHYSTS register
/// describe; `None` while the link is down.
pub open spec fn phy_speed_of_bits(bits: u16) -> Option<PhySpeed> {
    if !has_bits(bits, PHYSTS::LINK_STATUS) {
        None
    } else if has_bits(bits, PHYSTS::FULL_DUPLEX) {
        if has_bits(bits, PHYSTS::MBIT10) {
            Some(PhySpeed::FullDuplexBase10T)
        } else {
            Some(PhySpeed::FullDuplexBase100Tx)
        }
    } else if has_bits(bits, PHYSTS::MBIT10) {
        Some(PhySpeed::HalfDuplexBase10T)
    } else {
        Some(PhySpeed::HalfDuplexBase100Tx)
    }
}

impl PHYSTS {
    /// The register address of PHYSTS.
    pub const ADDRESS: u8 = 0x19;
    /// Full duplex mode.
    pub const FULL_DUPLEX: u16 = 0x0004;
    /// 10 Mb/s mode.
    pub const MBIT10: u16 = 0x0002;
    /// The link is up.
    pub const LINK_STATUS: u16 = 0x0001;
    /// All bits of PHYSTS that this library reads.
    pub const ALL: u16 = 0x0007;

    /// The register with the known bits of `bits`, and the others clear.
    pub fn from_bits_truncate(bits: u16) -> (r: PHYSTS)
        ensures
            r@ == bits & PHYSTS::ALL,
    {
        PHYSTS { bits: bits & PHYSTS::ALL }
    }

    /// The link speed and duplex mode that this register describes.
    pub fn speed(&self) -> (r: Option<PhySpeed>)
        ensures
            r == phy_speed_of_bits(self@),
    {
        let full_duplex = self.bits & PHYSTS::FULL_DUPLEX == PHYSTS::FULL_DUPLEX;
        let mbit_10 = self.bits & PHYSTS::MBIT10 == PHYSTS::MBIT10;
        let link = self.bits & PHYSTS::LINK_STATUS == PHYSTS::LINK_STATUS;
        if !link {
            return None;
        }
        let speed = match (full_duplex, mbit_10) {
            (true, true) => PhySpeed::FullDuplexBase10T,
            (true, false) => PhySpeed::FullDuplexBase100Tx,
            (false, true) => PhySpeed::HalfDuplexBase10T,
            (false, false) => PhySpeed::HalfDuplexBase100Tx,
        };
        Some(speed)
    }
}

impl From<PHYSTS> for Option<PhySpeed> {
    fn from(ctrl: PHYSTS) -> (r: Option<PhySpeed>) {
        ctrl.speed()
    }
}

impl vstd::std_specs::convert::FromSpecImpl<PHYSTS> for Option<PhySpeed> {
    open spec fn obeys_from_spec() -> bool {
        true
    }

    open spec fn from_spec(ctrl: PHYSTS) -> Option<PhySpeed> {
        phy_speed_of_bits(ctrl@)
    }
}

/// Clearing the bits of PHYSTS that this library does not read keeps the
/// speed it describes.
proof fn lemma_physts_flags_defined(x: u16)
    ensures
        phy_speed_of_bits(x & PHYSTS::ALL) == phy_speed_of_bits(x),
{
    assert({
        &&& ((x & 7) & 4 == 4) == (x & 4 == 4)
        &&& ((x & 7) & 2 == 2) == (x & 2 == 2)
        &&& ((x & 7) & 1 == 1) == (x & 1 == 1)
    }) by (bit_vector);
}

/// The PTP Control Register of the DP83640.
#[derive(Clone, Copy, Debug, PartialEq, Eq, Structural)]
pub struct PTPCTL {
    /// The raw contents.
    pub bits: u16,
}

impl View for PTPCTL {
    type V = u16;

    open spec fn view(&self) -> u16 {
        self.bits
    }
}

impl PTPCTL {
    /// The extended address (page, offset) of PTPCTL.
    pub const ADDRESS: (u16, u8) = (PTP_PAGE, PTPCTL_OFFSET);
    /// Reset the PTP clock.
    pub const PTP_RESET: u16 = 0x0001;
    /// Disable the PTP clock.
    pub const PTP_DISABLE: u16 = 0x0002;
    /// Enable the PTP clock.
    pub const PTP_ENABLE: u16 = 0x0004;
    /// Load the PTP clock from the time register.
    pub const PTP_LOAD_CLK: u16 = 0x0010;
    /// Latch the PTP clock into the time register.
    pub const PTP_RD_CLK: u16 = 0x0020;
    /// All defined bits of PTPCTL.
    pub const ALL: u16 = 0x0037;

    /// The register with the defined bits of `bits`, and the others clear.
    pub fn from_bits_truncate(bits: u16) -> (r: PTPCTL)
        ensures
            r@ == bits & PTPCTL::ALL,
    {
        PTPCTL { bits: bits & PTPCTL::ALL }
    }

    /// Whether every bit of `mask` is set.
    pub fn contains(&self, mask: u16) -> (r: bool)
        ensures
            r == has_bits(self@, mask),
    {
        self.bits & mask == mask
    }
}

/// The page of the PTP registers.
pub const PTP_PAGE: u16 = 0x4;

/// The offset of the PTP control register.
pub const PTPCTL_OFFSET: u8 = 0x14;

/// The offset of the PTP time register.
pub const PTP_TIME_OFFSET: u8 = 0x15;

/// The offset of the low half of the PTP rate register.
pub const PTP_RATEL_OFFSET: u8 = 0x18;

/// The offset of the high half of the PTP rate register.
pub const PTP_RATEH_OFFSET: u8 = 0x19;

/// The operations that read PTPCTL as `ctl` and write it back with `bit` set.
pub open spec fn ptpctl_set_ops(phy: u8, ctl: u16, bit: u16) -> Seq<BusOp> {
    paged(phy, PTP_PAGE, read_op(phy, PTPCTL_OFFSET, ctl)) + paged(
        phy,
        PTP_PAGE,
        write_op(phy, PTPCTL_OFFSET, ctl & PTPCTL::ALL | bit),
    )
}

impl<MIIM: Miim> DP83XXX<MIIM, true> {
    /// Read PTPCTL and write it back with the bits of `bit` set.
    fn set_ptpctl(&mut self, bit: u16)
        ensures
            ({
                let h0 = old(self).history();
                let h = final(self).history();
                let a = old(self).address();
                &&& final(self).address() == a
                &&& h == h0 + ptpctl_set_ops(a, h[h0.len() + 1int].value, bit)
            }),
    {
        let mut ptpctl = PTPCTL::from_bits_truncate(self.read_ext(PTPCTL::ADDRESS));
        ptpctl.bits = ptpctl.bits | bit;
        self.write_ext(PTPCTL::ADDRESS, ptpctl.bits);
        proof {
            let h0 = old(self).history();
            let h = self.history();
            assert(h =~= h0 + ptpctl_set_ops(old(self).address(), h[h0.len() + 1int].value, bit));
        }
    }

    /// Check if the PTP clock is started
    pub fn started(&mut self) -> (r: bool)
        ensures
            ({
                let h = final(self).history();
                let a = old(self).address();
                let v = h.last().value;
                &&& final(self).address() == a
                &&& h == old(self).history() + paged(a, PTP_PAGE, read_op(a, PTPCTL_OFFSET, v))
                &&& r == has_bits(v & PTPCTL::ALL, PTPCTL::PTP_ENABLE)
            }),
    {
        let ptpctl = PTPCTL::from_bits_truncate(self.read_ext(PTPCTL::ADDRESS));
        ptpctl.contains(PTPCTL::PTP_ENABLE)
    }

    /// Reset the PTP clock: set the reset bit of PTPCTL
    pub fn reset_clock(&mut self)
        ensures
            ({
                let h0 = old(self).history();
                let h = final(self).history();
                let a = old(self).address();
                &&& final(self).address() == a
                &&& h == h0 + ptpctl_set_ops(a, h[h0.len() + 1int].value, PTPCTL::PTP_RESET)
            }),
    {
        self.set_ptpctl(PTPCTL::PTP_RESET);
    }

    /// Enable the PTP clock: set the enable bit of PTPCTL
    pub fn start_ptp(&mut self)
        ensures
            ({
                let h0 = old(self).history();
                let h = final(self).history();
                let a = old(self).address();
                &&& final(self).address() == a
                &&& h == h0 + ptpctl_set_ops(a, h[h0.len() + 1int].value, PTPCTL::PTP_ENABLE)
            }),
    {
        self.set_ptpctl(PTPCTL::PTP_ENABLE);
    }

    /// Disable the PTP clock: set the disable bit of PTPCTL
    pub fn stop_ptp(&mut self)
        ensures
            ({
                let h0 = old(self).history();
                let h = final(self).history();
                let a = old(self).address();
                &&& final(self).address() == a
                &&& h == h0 + ptpctl_set_ops(a, h[h0.len() + 1int].value, PTPCTL::PTP_DISABLE)
            }),
    {
        self.set_ptpctl(PTPCTL::PTP_DISABLE);
    }

    /// Set the PTP clock: read PTPCTL, write `clock` to the time register,
    /// then write PTPCTL back with the load bit set.
    pub fn set_clock(&mut self, clock: u16)
        ensures
            ({
                let h0 = old(self).history();
                let h = final(self).history();
                let a = old(self).address();
                let ctl = h[h0.len() + 1int].value;
                &&& final(self).address() == a
                &&& h == h0 + paged(a, PTP_PAGE, read_op(a, PTPCTL_OFFSET, ctl)) + paged(
                    a,
                    PTP_PAGE,
                    write_op(a, PTP_TIME_OFFSET, clock),
                ) + paged(
                    a,
                    PTP_PAGE,
                    write_op(a, PTPCTL_OFFSET, ctl & PTPCTL::ALL | PTPCTL::PTP_LOAD_CLK),
                )
            }),
    {
        let mut ptpctl = PTPCTL::from_bits_truncate(self.read_ext(PTPCTL::ADDRESS));
        ptpctl.bits = ptpctl.bits | PTPCTL::PTP_LOAD_CLK;
        self.write_ext((PTP_PAGE, PTP_TIME_OFFSET), clock);
        self.write_ext(PTPCTL::ADDRESS, ptpctl.bits);
    }

    /// Read the PTP clock: write PTPCTL back with the read bit set, then read
    /// the time register.
    pub fn read_clock(&mut self) -> (r: u16)
        ensures
            ({
                let h0 = old(self).history();
                let h = final(self).history();
                let a = old(self).address();
                let ctl = h[h0.len() + 1int].value;
                &&& final(self).address() == a
                &&& h == h0 + ptpctl_set_ops(a, ctl, PTPCTL::PTP_RD_CLK) + paged(
                    a,
                    PTP_PAGE,
                    read_op(a, PTP_TIME_OFFSET, r),
                )
            }),
    {
        self.set_ptpctl(PTPCTL::PTP_RD_CLK);
        self.read_ext((PTP_PAGE, PTP_TIME_OFFSET))
    }

    /// Set the rate control value: the high half of `rate`, then the low
    /// half, each by its own extended write.
    pub fn set_rate_control(&mut self, rate: u32)
        ensures
            ({
                let h0 = old(self).history();
                let h = final(self).history();
                let a = old(self).address();
                &&& final(self).address() == a
                &&& h == h0 + paged(
                    a,
                    PTP_PAGE,
                    write_op(a, PTP_RATEH_OFFSET, (rate / 0x10000) as u16),
                ) + paged(a, PTP_PAGE, write_op(a, PTP_RATEL_OFFSET, (rate % 0x10000) as u16))
            }),
    {
        let high_bits = (rate / 0x10000) as u16;
        let low_bits = (rate % 0x10000) as u16;
        self.write_ext((PTP_PAGE, PTP_RATEH_OFFSET), high_bits);
        self.write_ext((PTP_PAGE, PTP_RATEL_OFFSET), low_bits);
    }
}

impl<MIIM: Miim> PTP for DP83XXX<MIIM, true> {
    fn start_ptp(&mut self) {
        DP83XXX::start_ptp(self)
    }

    fn stop_ptp(&mut self) {
        DP83XXX::stop_ptp(self)
    }

    fn set_clock(&mut self, clock: u16) {
        DP83XXX::set_clock(self, clock)
    }

    fn read_clock(&mut self) -> u16 {
        DP83XXX::read_clock(self)
    }

    fn reset_clock(&mut self) {
        DP83XXX::reset_clock(self)
    }

    fn started(&mut self) -> bool {
        DP83XXX::started(self)
    }

    fn set_rate_control(&mut self, rate: u32) {
        DP83XXX::set_rate_control(self, rate)
    }
}

} // verus!
