use std::collections::HashMap;

use ieee802_3_miim::phy::dp83xxx::{DP83640, DP83848, DP83XXX};
use ieee802_3_miim::phy::PhySpeed;
use ieee802_3_miim::{AutoNegotiationAdvertisement, Miim, Pause, Phy, PhyIdent, SelectorField, PTP};

const ADDR: u8 = 3;

#[derive(Debug, Clone, Copy, PartialEq, Eq)]
enum Op {
    Read(u8, u16),
    Write(u8, u16),
}

/// A register file per PHY address, with a log of every operation.
#[derive(Default)]
struct MockBus {
    regs: HashMap<(u8, u8), u16>,
    log: Vec<(u8, Op)>,
}

impl MockBus {
    fn with(regs: &[(u8, u16)]) -> MockBus {
        let mut bus = MockBus::default();
        for &(reg, value) in regs {
            bus.regs.insert((ADDR, reg), value);
        }
        bus
    }

    fn ops(&self) -> Vec<Op> {
        self.log.iter().map(|&(phy, op)| {
            assert_eq!(phy, ADDR);
            op
        }).collect()
    }
}

impl Miim for MockBus {
    fn read(&mut self, phy: u8, reg: u8) -> u16 {
        let value = *self.regs.get(&(phy, reg)).unwrap_or(&0);
        self.log.push((phy, Op::Read(reg, value)));
        value
    }

    fn write(&mut self, phy: u8, reg: u8, data: u16) {
        self.regs.insert((phy, reg), data);
        self.log.push((phy, Op::Write(reg, data)));
    }
}

fn request_10_half_10_full_100_full() -> AutoNegotiationAdvertisement {
    AutoNegotiationAdvertisement {
        hd_10base_t: true,
        fd_10base_t: true,
        fd_100base_tx: true,
        ..AutoNegotiationAdvertisement::default()
    }
}

#[test]
fn gating_without_extended_caps() {
    // Every register holds plausible contents; only the capability bit is clear.
    let regs = [(1u8, 0xfffeu16), (0, 0x1000), (2, 0x2000), (3, 0x5c90), (4, 0x01e1), (5, 0x45e1)];
    let mut phy: DP83848<MockBus> = DP83XXX::new(MockBus::with(&regs), ADDR);
    assert_eq!(phy.phy_ident(), None);
    assert_eq!(phy.get_autonegotiation_caps(), None);
    assert_eq!(phy.get_autonegotiation_partner_caps(), None);
    assert_eq!(phy.ane(), None);
    phy.set_autonegotiation_advertisement(request_10_half_10_full_100_full());
    let bus = phy.release();
    let status_read = Op::Read(1, 0xfffe);
    assert_eq!(bus.ops(), vec![status_read; 5]);
    assert_eq!(bus.regs[&(ADDR, 4)], 0x01e1);
}

#[test]
fn advertisement_intersection() {
    // Supported: 10BASE-T half duplex and 100BASE-X full duplex, with extended capabilities.
    let bsr = 0x4000u16 | 0x0800 | 0x0001;
    let mut phy: DP83848<MockBus> = DP83XXX::new(MockBus::with(&[(1, bsr), (0, 0x0100)]), ADDR);
    phy.set_autonegotiation_advertisement(request_10_half_10_full_100_full());
    let bus = phy.release();
    // 10BASE-T (bit 5) and 100BASE-TX full duplex (bit 8), with the 802.3 selector.
    assert_eq!(bus.regs[&(ADDR, 4)] & 0x03e0, 0x0020 | 0x0100);
    assert_eq!(
        bus.ops(),
        vec![
            Op::Read(1, bsr),
            Op::Write(4, 0x0121),
            Op::Read(0, 0x0100),
            Op::Write(0, 0x0100 | 0x1000 | 0x0200),
        ]
    );
}

#[test]
fn advertisement_keeps_selector_and_pause() {
    let mut phy: DP83848<MockBus> = DP83XXX::new(MockBus::with(&[(1, 0xf801)]), ADDR);
    let ad = AutoNegotiationAdvertisement {
        selector_field: Some(SelectorField::Std1394),
        base100_t4: true,
        pause: Pause::SymmetricAndAsymmetricLocal,
        ..AutoNegotiationAdvertisement::default()
    };
    phy.set_autonegotiation_advertisement(ad);
    assert_eq!(phy.release().regs[&(ADDR, 4)], 0x0c00 | 0x0200 | 0x0004);
}

#[test]
fn identifier_read_with_extended_caps() {
    let regs = [(1u8, 0x0001u16), (2, 0x2000), (3, 0x5c90)];
    let mut phy: DP83848<MockBus> = DP83XXX::new(MockBus::with(&regs), ADDR);
    assert_eq!(phy.phy_ident(), Some(PhyIdent::new(0x2000, 0x5c90)));
    let caps = phy.get_autonegotiation_caps().unwrap();
    assert_eq!(caps.selector_field, None);
    assert_eq!(
        phy.release().ops(),
        vec![
            Op::Read(1, 1),
            Op::Read(2, 0x2000),
            Op::Read(3, 0x5c90),
            Op::Read(1, 1),
            Op::Read(4, 0),
        ]
    );
}

#[test]
fn partner_caps_are_decoded() {
    let mut phy: DP83848<MockBus> = DP83XXX::new(MockBus::with(&[(1, 0x0001), (5, 0x45e1)]), ADDR);
    let partner = phy.get_autonegotiation_partner_caps().unwrap();
    assert_eq!(partner.pause, Pause::Symmetric);
    assert!(partner.hd_10base_t && partner.fd_10base_t && partner.hd_100base_tx);
    assert!(partner.fd_100base_tx && !partner.base100_t4);
    assert_eq!(partner.selector_field, Some(SelectorField::Std802_3));
}

#[test]
fn ane_is_read_with_extended_caps() {
    let mut phy: DP83848<MockBus> = DP83XXX::new(MockBus::with(&[(1, 0x0001), (6, 0xff0f)]), ADDR);
    assert_eq!(phy.ane().map(|a| a.bits()), Some(0x000f));
}

#[test]
fn paged_access_ordering() {
    let mut phy: DP83640<MockBus> = DP83XXX::new(MockBus::with(&[]), ADDR);
    phy.write_ext((4, 0x15), 0xbeef);
    phy.write_ext((4, 0x15), 0x1234);
    let value = phy.read_ext((4, 0x15));
    assert_eq!(value, 0x1234);
    assert_eq!(
        phy.release().ops(),
        vec![
            Op::Write(0x13, 4),
            Op::Write(0x15, 0xbeef),
            Op::Write(0x13, 4),
            Op::Write(0x15, 0x1234),
            Op::Write(0x13, 4),
            Op::Read(0x15, 0x1234),
        ]
    );
}

#[test]
fn interrupt_register_access() {
    let mut phy: DP83848<MockBus> = DP83XXX::new(MockBus::with(&[]), ADDR);
    phy.interrupt_enable();
    assert_eq!(phy.get_interrupt_reg_val(), 0x0020);
    assert_eq!(
        phy.release().ops(),
        vec![Op::Write(0x13, 0), Op::Write(0x1b, 0x20), Op::Write(0x13, 0), Op::Read(0x1b, 0x20)]
    );
}

#[test]
fn link_speed_and_establishment() {
    let mut phy: DP83848<MockBus> = DP83XXX::new(MockBus::with(&[(0x19, 0x0005), (1, 0x0024)]), ADDR);
    assert_eq!(phy.link_speed(), Some(PhySpeed::FullDuplexBase100Tx));
    assert!(phy.link_established());
    let mut down: DP83848<MockBus> = DP83XXX::new(MockBus::with(&[(1, 0x0004)]), ADDR);
    assert_eq!(down.link_speed(), None);
    assert!(!down.link_established());
    // Autonegotiation is not complete: the link status is not read again.
    assert_eq!(down.release().ops(), vec![Op::Read(0x19, 0), Op::Read(1, 0x0004)]);
}

#[test]
fn reset_sets_reset_bit() {
    let mut phy: DP83848<MockBus> = DP83XXX::new(MockBus::with(&[(0, 0x3100)]), ADDR);
    assert!(!phy.is_resetting());
    phy.reset();
    assert!(phy.is_resetting());
    assert_eq!(
        phy.release().ops(),
        vec![Op::Read(0, 0x3100), Op::Read(0, 0x3100), Op::Write(0, 0xb100), Op::Read(0, 0xb100)]
    );
}

#[test]
fn link_state_flags() {
    let mut phy: DP83848<MockBus> = DP83XXX::new(MockBus::with(&[(1, 0x0024)]), ADDR);
    assert!(phy.phy_link_up());
    assert!(phy.autoneg_completed());
    assert_eq!(phy.bcr().bits(), 0);
    assert_eq!(phy.bsr().bits(), 0x0024);
}

#[test]
fn dp83xxx_has_no_extended_status() {
    let mut phy: DP83848<MockBus> = DP83XXX::new(MockBus::with(&[(1, 0x0101), (15, 0x3000)]), ADDR);
    assert_eq!(phy.extended_status(), None);
    assert_eq!(phy.esr(), None);
    let best = phy.best_supported_advertisement();
    assert!(best.hd_10base_t && best.fd_10base_t && best.hd_100base_tx);
    assert!(best.fd_100base_tx && best.base100_t4);
    assert_eq!(phy.get_phy_addr(), ADDR);
    assert!(phy.release().ops().is_empty());
}

#[test]
fn ptp_start_stop_reset() {
    let mut phy: DP83640<MockBus> = DP83XXX::new(MockBus::with(&[(0x14, 0xff00)]), ADDR);
    assert!(!PTP::started(&mut phy));
    PTP::start_ptp(&mut phy);
    assert!(PTP::started(&mut phy));
    PTP::stop_ptp(&mut phy);
    PTP::reset_clock(&mut phy);
    let ops = phy.release().ops();
    assert_eq!(
        ops,
        vec![
            Op::Write(0x13, 4),
            Op::Read(0x14, 0xff00),
            Op::Write(0x13, 4),
            Op::Read(0x14, 0xff00),
            Op::Write(0x13, 4),
            Op::Write(0x14, 0x0004),
            Op::Write(0x13, 4),
            Op::Read(0x14, 0x0004),
            Op::Write(0x13, 4),
            Op::Read(0x14, 0x0004),
            Op::Write(0x13, 4),
            Op::Write(0x14, 0x0006),
            Op::Write(0x13, 4),
            Op::Read(0x14, 0x0006),
            Op::Write(0x13, 4),
            Op::Write(0x14, 0x0007),
        ]
    );
}

#[test]
fn ptp_set_and_read_clock() {
    let mut phy: DP83640<MockBus> = DP83XXX::new(MockBus::with(&[(0x14, 0x0004)]), ADDR);
    PTP::set_clock(&mut phy, 0x4321);
    assert_eq!(PTP::read_clock(&mut phy), 0x4321);
    assert_eq!(
        phy.release().ops(),
        vec![
            Op::Write(0x13, 4),
            Op::Read(0x14, 0x0004),
            Op::Write(0x13, 4),
            Op::Write(0x15, 0x4321),
            Op::Write(0x13, 4),
            Op::Write(0x14, 0x0014),
            Op::Write(0x13, 4),
            Op::Read(0x14, 0x0014),
            Op::Write(0x13, 4),
            Op::Write(0x14, 0x0034),
            Op::Write(0x13, 4),
            Op::Read(0x15, 0x4321),
        ]
    );
}

#[test]
fn ptp_rate_control_halves() {
    let mut phy: DP83640<MockBus> = DP83XXX::new(MockBus::with(&[]), ADDR);
    PTP::set_rate_control(&mut phy, 0x1234_5678);
    assert_eq!(
        phy.release().ops(),
        vec![Op::Write(0x13, 4), Op::Write(0x19, 0x1234), Op::Write(0x13, 4), Op::Write(0x18, 0x5678)]
    );
}
