use ieee802_3_miim::phy::dp83xxx::PHYSTS;
use ieee802_3_miim::phy::PhySpeed;
use ieee802_3_miim::registers::{AutoNegCap, Bcr, Bsr, Esr};
use ieee802_3_miim::{
    AutoNegotiationAdvertisement, ExtendedPhyStatus, LinkSpeed, Pause, PhyIdent, PhyStatus,
    SelectorField,
};

#[test]
fn link_speed_decodes_each_pattern() {
    assert_eq!(LinkSpeed::from(Bcr::from_bits_truncate(0x0040)), LinkSpeed::Mpbs1000);
    assert_eq!(LinkSpeed::from(Bcr::from_bits_truncate(0x2000)), LinkSpeed::Mbps100);
    assert_eq!(LinkSpeed::from(Bcr::from_bits_truncate(0x0000)), LinkSpeed::Mpbs10);
    assert_eq!(LinkSpeed::from(Bcr::from_bits_truncate(0x2040)), LinkSpeed::Illegal);
}

#[test]
fn link_speed_round_trip() {
    for raw in [0x0000u16, 0x0040, 0x2000, 0x8040, 0x3100, 0x1000] {
        let speed = LinkSpeed::from(Bcr::from_bits_truncate(raw));
        assert_ne!(speed, LinkSpeed::Illegal);
        assert_eq!(Bcr::from_link_speed(speed).bits(), raw & 0x2040);
    }
    for speed in [LinkSpeed::Mpbs1000, LinkSpeed::Mbps100, LinkSpeed::Mpbs10] {
        assert_eq!(LinkSpeed::from(Bcr::from_link_speed(speed)), speed);
    }
}

#[test]
fn both_speed_bits_are_illegal() {
    for raw in [0x2040u16, 0xffff, 0x2140, 0xa040] {
        assert_eq!(LinkSpeed::from(Bcr::from_bits_truncate(raw)), LinkSpeed::Illegal);
    }
}

#[test]
fn pause_round_trip() {
    let cases = [
        (0x0000u16, Pause::NoPause),
        (0x0800, Pause::AsymmetricPartner),
        (0x0400, Pause::Symmetric),
        (0x0c00, Pause::SymmetricAndAsymmetricLocal),
    ];
    for (raw, pause) in cases {
        assert_eq!(Pause::from(AutoNegCap::from_bits_truncate(raw | 0x0121)), pause);
        assert_eq!(AutoNegCap::from(pause).bits(), raw);
    }
    assert_eq!(Pause::default(), Pause::NoPause);
}

#[test]
fn selector_round_trip() {
    let cases = [
        (0x01u16, SelectorField::Std802_3),
        (0x02, SelectorField::Std802_9Islan16t),
        (0x03, SelectorField::Std802_5),
        (0x04, SelectorField::Std1394),
    ];
    for (raw, sf) in cases {
        let decoded: Option<SelectorField> = AutoNegCap::from_bits_truncate(raw | 0x01e0).into();
        assert_eq!(decoded, Some(sf));
        assert_eq!(AutoNegCap::from(sf).bits(), raw);
    }
    assert_eq!(SelectorField::default(), SelectorField::Std802_3);
}

#[test]
fn selector_with_extra_bits_is_absent() {
    for raw in [0x00u16, 0x05, 0x11, 0x13, 0x1f, 0x09, 0x07] {
        let decoded: Option<SelectorField> = AutoNegCap::from_bits_truncate(raw).into();
        assert_eq!(decoded, None, "selector bits {:#x}", raw);
    }
}

#[test]
fn status_flags_follow_bits() {
    let status = PhyStatus::from(Bsr::from_bits_truncate(0x7809));
    assert_eq!(
        status,
        PhyStatus {
            base100_t4: false,
            fd_100base_x: true,
            hd_100base_x: true,
            fd_10mbps: true,
            hd_10mbps: true,
            extended_status: false,
            unidirectional: false,
            preamble_suppression: false,
            autonegotiation: true,
            extended_caps: true,
        }
    );
    let all = PhyStatus::from(Bsr::from_bits_truncate(0xffff));
    assert!(all.base100_t4 && all.extended_status && all.unidirectional);
    assert!(all.preamble_suppression);
}

#[test]
fn best_autoneg_ad_enables_supported_technologies() {
    let status = PhyStatus::from(Bsr::from_bits_truncate(0x6000));
    let ad = status.best_autoneg_ad();
    assert_eq!(
        ad,
        AutoNegotiationAdvertisement {
            selector_field: Some(SelectorField::Std802_3),
            hd_10base_t: false,
            fd_10base_t: false,
            hd_100base_tx: true,
            fd_100base_tx: true,
            base100_t4: false,
            pause: Pause::NoPause,
        }
    );
    assert_eq!(PhyStatus::from(Bsr::from_bits_truncate(0)).best_autoneg_ad(), AutoNegotiationAdvertisement::default());
}

#[test]
fn advertisement_from_capability_bits() {
    let ad = AutoNegotiationAdvertisement::from(AutoNegCap::from_bits_truncate(0x0de1));
    assert_eq!(
        ad,
        AutoNegotiationAdvertisement {
            selector_field: Some(SelectorField::Std802_3),
            hd_10base_t: true,
            fd_10base_t: true,
            hd_100base_tx: true,
            fd_100base_tx: true,
            base100_t4: false,
            pause: Pause::SymmetricAndAsymmetricLocal,
        }
    );
    let unknown = AutoNegotiationAdvertisement::from(AutoNegCap::from_bits_truncate(0x0205));
    assert_eq!(unknown.selector_field, None);
    assert!(unknown.base100_t4);
}

#[test]
fn extended_status_flags_follow_bits() {
    let ext = ExtendedPhyStatus::from_esr(Esr::from_bits_truncate(0xa0ff));
    assert_eq!(
        ext,
        ExtendedPhyStatus {
            fd_1000base_x: true,
            hd_1000base_x: false,
            fd_1000base_t: true,
            hd_1000base_t: false,
        }
    );
}

#[test]
fn identifier_slicing() {
    let ident = PhyIdent::new(0x2000, 0b0000_0011_0101_0110);
    assert_eq!(ident.model_number(), 0b110101);
    assert_eq!(ident.model_number(), 53);
    assert_eq!(ident.revision(), 0b0110);
    assert_eq!(ident.revision(), 6);
}

#[test]
fn identifier_raw_values() {
    let ident = PhyIdent::new(0x2000, 0x5ce1);
    assert_eq!(ident.raw(), (0x2000, 0x5ce1));
    assert_eq!(ident.raw_u32(), 0x2000_5ce1);
    assert_eq!(ident.oui(), 0x0008_0017);
    assert_eq!(PhyIdent::new(0xffff, 0xffff).oui(), 0x3f_ffff);
    assert_eq!(PhyIdent::new(0, 0x03ff).oui(), 0);
    assert_eq!(ident.model_number(), 0x0e);
    assert_eq!(ident.revision(), 1);
}

#[test]
fn physts_speed() {
    assert_eq!(Option::<PhySpeed>::from(PHYSTS::from_bits_truncate(0x0000)), None);
    assert_eq!(Option::<PhySpeed>::from(PHYSTS::from_bits_truncate(0x0006)), None);
    assert_eq!(PHYSTS::from_bits_truncate(0x0007).speed(), Some(PhySpeed::FullDuplexBase10T));
    assert_eq!(PHYSTS::from_bits_truncate(0x0005).speed(), Some(PhySpeed::FullDuplexBase100Tx));
    assert_eq!(PHYSTS::from_bits_truncate(0x0003).speed(), Some(PhySpeed::HalfDuplexBase10T));
    assert_eq!(PHYSTS::from_bits_truncate(0xfff1).speed(), Some(PhySpeed::HalfDuplexBase100Tx));
}
