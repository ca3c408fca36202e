//! Domain values of PHY capabilities and their translation to and from raw
//! register bits.
use crate::registers::{has_bits, AutoNegCap, Bcr, Bsr, Esr};
use vstd::prelude::*;

verus! {

/// All basic link speeds possibly supported by the PHY.
#[derive(Clone, Copy, Debug, PartialEq, Eq, Structural)]
pub enum LinkSpeed {
    /// 1000 Mbps
    Mpbs1000,
    /// 100 Mbps
    Mbps100,
    /// 10 Mbps
    Mpbs10,
    /// Both speed selection bits are set, which no speed encodes
    Illegal,
}

/// The link speed that the two speed selection bits of a BCR select.
pub open spec fn speed_of_bits(bits: u16) -> LinkSpeed {
    if has_bits(bits, Bcr::SPEED_SEL_MSB) && has_bits(bits, Bcr::SPEED_SEL_LSB) {
        LinkSpeed::Illegal
    } else if has_bits(bits, Bcr::SPEED_SEL_MSB) {
        LinkSpeed::Mpbs1000
    } else if has_bits(bits, Bcr::SPEED_SEL_LSB) {
        LinkSpeed::Mbps100
    } else {
        LinkSpeed::Mpbs10
    }
}

/// The BCR bits that select a legal link speed.
pub open spec fn speed_bits(speed: LinkSpeed) -> u16 {
    match speed {
        LinkSpeed::Mpbs1000 => Bcr::SPEED_SEL_MSB,
        LinkSpeed::Mbps100 => Bcr::SPEED_SEL_LSB,
        _ => 0,
    }
}

impl From<Bcr> for LinkSpeed {
    fn from(bcr: Bcr) -> (r: LinkSpeed) {
        let msb = bcr.contains(Bcr::SPEED_SEL_MSB);
        let lsb = bcr.contains(Bcr::SPEED_SEL_LSB);
        if msb && lsb {
            LinkSpeed::Illegal
        } else if msb {
            LinkSpeed::Mpbs1000
        } else if lsb {
            LinkSpeed::Mbps100
        } else {
            LinkSpeed::Mpbs10
        }
    }
}

impl vstd::std_specs::convert::FromSpecImpl<Bcr> for LinkSpeed {
    open spec fn obeys_from_spec() -> bool {
        true
    }

    open spec fn from_spec(bcr: Bcr) -> LinkSpeed {
        speed_of_bits(bcr@)
    }
}

impl Bcr {
    /// The BCR with the speed selection bits of `speed` and no other bit set.
    ///
    /// `LinkSpeed::Illegal` has no encoding: a caller must not pass it, and an
    /// unverified caller that does so panics.
    pub fn from_link_speed(speed: LinkSpeed) -> (r: Bcr)
        requires
            speed != LinkSpeed::Illegal,
        ensures
            r@ == speed_bits(speed),
    {
        match speed {
            LinkSpeed::Mpbs1000 => Bcr { bits: Bcr::SPEED_SEL_MSB },
            LinkSpeed::Mbps100 => Bcr { bits: Bcr::SPEED_SEL_LSB },
            LinkSpeed::Mpbs10 => Bcr::empty(),
            LinkSpeed::Illegal => vstd::pervasive::unreached(),
        }
    }
}

/// The status register of a PHY: what functions the PHY is capable of.
#[derive(Clone, Copy, Debug, PartialEq, Eq, Structural)]
pub struct PhyStatus {
    /// The PHY supports 100BASE-T4
    pub base100_t4: bool,
    /// The PHY supports 100BASE-X Full Duplex
    pub fd_100base_x: bool,
    /// The PHY supports 100BASE-X Half Duplex
    pub hd_100base_x: bool,
    /// The PHY supports 10 Mb/s full duplex
    pub fd_10mbps: bool,
    /// The PHY supports 10 Mb/s half duplex
    pub hd_10mbps: bool,
    /// The PHY has extended status data in register 15
    pub extended_status: bool,
    /// The PHY supports unidirectional communication
    pub unidirectional: bool,
    /// The PHY accepts management frames that are not preceded by the preamble
    pub preamble_suppression: bool,
    /// The PHY can perform autonegotiation
    pub autonegotiation: bool,
    /// The PHY supports extended capabilities, accessible through the
    /// extended register set
    pub extended_caps: bool,
}

/// The status that the raw bits of a BSR describe, one flag per bit.
pub open spec fn status_of_bits(bits: u16) -> PhyStatus {
    PhyStatus {
        base100_t4: has_bits(bits, Bsr::BASE100_T4),
        fd_100base_x: has_bits(bits, Bsr::BASE100_X_FD),
        hd_100base_x: has_bits(bits, Bsr::BASE100_X_HD),
        fd_10mbps: has_bits(bits, Bsr::MBPS10_FD),
        hd_10mbps: has_bits(bits, Bsr::MBPS10_HD),
        extended_status: has_bits(bits, Bsr::EXTENDED_STATUS),
        unidirectional: has_bits(bits, Bsr::UNIDIRECTIONAL),
        preamble_suppression: has_bits(bits, Bsr::MF_PREAMBLE_SUPPRESSION),
        autonegotiation: has_bits(bits, Bsr::AUTONEG_ABLE),
        extended_caps: has_bits(bits, Bsr::EXTENDED_CAPABILITIES),
    }
}

impl vstd::std_specs::convert::FromSpecImpl<Bsr> for PhyStatus {
    open spec fn obeys_from_spec() -> bool {
        true
    }

    open spec fn from_spec(bsr: Bsr) -> PhyStatus {
        status_of_bits(bsr@)
    }
}

impl PhyStatus {
    /// The status that `bsr` describes, one flag per bit.
    pub fn from_bsr(bsr: Bsr) -> (r: PhyStatus)
        ensures
            r == status_of_bits(bsr@),
    {
        PhyStatus {
            base100_t4: bsr.contains(Bsr::BASE100_T4),
            fd_100base_x: bsr.contains(Bsr::BASE100_X_FD),
            hd_100base_x: bsr.contains(Bsr::BASE100_X_HD),
            fd_10mbps: bsr.contains(Bsr::MBPS10_FD),
            hd_10mbps: bsr.contains(Bsr::MBPS10_HD),
            extended_status: bsr.contains(Bsr::EXTENDED_STATUS),
            unidirectional: bsr.contains(Bsr::UNIDIRECTIONAL),
            preamble_suppression: bsr.contains(Bsr::MF_PREAMBLE_SUPPRESSION),
            autonegotiation: bsr.contains(Bsr::AUTONEG_ABLE),
            extended_caps: bsr.contains(Bsr::EXTENDED_CAPABILITIES),
        }
    }
}

impl From<Bsr> for PhyStatus {
    fn from(bsr: Bsr) -> (r: PhyStatus) {
        PhyStatus::from_bsr(bsr)
    }
}

/// The advertisement of every technology that `status` reports as supported,
/// with the default selector field and no PAUSE.
pub open spec fn best_ad_of(status: PhyStatus) -> AutoNegotiationAdvertisement {
    AutoNegotiationAdvertisement {
        selector_field: Some(SelectorField::Std802_3),
        hd_10base_t: status.hd_10mbps,
        fd_10base_t: status.fd_10mbps,
        hd_100base_tx: status.hd_100base_x,
        fd_100base_tx: status.fd_100base_x,
        base100_t4: status.base100_t4,
        pause: Pause::NoPause,
    }
}

impl PhyStatus {
    /// Create the best autonegotiation advertisement that we can.
    ///
    /// The returned advertisement will have default values for
    /// `selector_field` and `pause`. Those fields must be configured manually,
    /// or left to their defaults.
    pub fn best_autoneg_ad(&self) -> (r: AutoNegotiationAdvertisement)
        ensures
            r == best_ad_of(*self),
    {
        let mut ad = AutoNegotiationAdvertisement::default();
        if self.base100_t4 {
            ad.base100_t4 = true;
        }
        if self.fd_100base_x {
            ad.fd_100base_tx = true;
        }
        if self.hd_100base_x {
            ad.hd_100base_tx = true;
        }
        if self.fd_10mbps {
            ad.fd_10base_t = true;
        }
        if self.hd_10mbps {
            ad.hd_10base_t = true;
        }
        ad
    }
}

/// The extended status register of a PHY: what extended functions the PHY is
/// capable of.
///
/// This register is only valid if the field `extended_status` of the
/// [`PhyStatus`] of the PHY is `true`.
#[derive(Clone, Copy, Debug, PartialEq, Eq, Structural)]
pub struct ExtendedPhyStatus {
    /// The PHY supports 1000BASE-X Full Duplex
    pub fd_1000base_x: bool,
    /// The PHY supports 1000BASE-X Half Duplex
    pub hd_1000base_x: bool,
    /// The PHY supports 1000BASE-T Full Duplex
    pub fd_1000base_t: bool,
    /// The PHY supports 1000BASE-T Half Duplex
    pub hd_1000base_t: bool,
}

/// The extended status that the raw bits of an ESR describe.
pub open spec fn ext_status_of_bits(bits: u16) -> ExtendedPhyStatus {
    ExtendedPhyStatus {
        fd_1000base_x: has_bits(bits, Esr::BASE1000_X_FD),
        hd_1000base_x: has_bits(bits, Esr::BASE1000_X_HD),
        fd_1000base_t: has_bits(bits, Esr::BASE1000_T_FD),
        hd_1000base_t: has_bits(bits, Esr::BASE1000_T_HD),
    }
}

impl ExtendedPhyStatus {
    /// The extended status that `esr` describes.
    pub fn from_esr(esr: Esr) -> (r: ExtendedPhyStatus)
        ensures
            r == ext_status_of_bits(esr@),
    {
        ExtendedPhyStatus {
            fd_1000base_x: esr.contains(Esr::BASE1000_X_FD),
            hd_1000base_x: esr.contains(Esr::BASE1000_X_HD),
            fd_1000base_t: esr.contains(Esr::BASE1000_T_FD),
            hd_1000base_t: esr.contains(Esr::BASE1000_T_HD),
        }
    }
}

/// The selector field, describing the type of autonegotiation message sent by
/// a PHY.
///
/// In practice, [`SelectorField::Std802_3`] is used almost exclusively.
#[derive(Clone, Copy, Debug, PartialEq, Eq, Structural)]
pub enum SelectorField {
    /// The message is an IEEE Std 802.3 message
    Std802_3,
    /// The message is an IEEE Std 802.9 ISLAN-16T message
    Std802_9Islan16t,
    /// The message is an IEEE Std 802.5 message
    Std802_5,
    /// The message is an IEEE Std 1394 message
    Std1394,
}

impl Default for SelectorField {
    fn default() -> (r: SelectorField)
        ensures
            r == SelectorField::Std802_3,
    {
        SelectorField::Std802_3
    }
}

/// The selector field bits that encode `sf`.
pub open spec fn selector_bits(sf: SelectorField) -> u16 {
    match sf {
        SelectorField::Std802_3 => AutoNegCap::SEL_802_3,
        SelectorField::Std802_9Islan16t => AutoNegCap::SEL_802_9_ISLAN_16T,
        SelectorField::Std802_5 => AutoNegCap::SEL_802_5,
        SelectorField::Std1394 => AutoNegCap::SEL_1394,
    }
}

/// The selector field whose encoding equals the selector bits of `bits`
/// exactly, if there is one.
pub open spec fn selector_of_bits(bits: u16) -> Option<SelectorField> {
    let sel = bits & AutoNegCap::SEL_MASK;
    if sel == AutoNegCap::SEL_802_3 {
        Some(SelectorField::Std802_3)
    } else if sel == AutoNegCap::SEL_802_5 {
        Some(SelectorField::Std802_5)
    } else if sel == AutoNegCap::SEL_802_9_ISLAN_16T {
        Some(SelectorField::Std802_9Islan16t)
    } else if sel == AutoNegCap::SEL_1394 {
        Some(SelectorField::Std1394)
    } else {
        None
    }
}

proof fn lemma_xor_zero_iff_equal(a: u16, b: u16)
    ensures
        (a ^ b == 0) == (a == b),
{
    assert((a ^ b == 0) == (a == b)) by (bit_vector);
}

impl SelectorField {
    /// The selector field whose encoding equals the selector bits of `ana`
    /// exactly, if there is one.
    pub fn from_cap(ana: AutoNegCap) -> (r: Option<SelectorField>)
        ensures
            r == selector_of_bits(ana@),
    {
        // XOR with each known pattern leaves no bit exactly when the selector
        // bits equal that pattern.
        let sel = ana.selector_bits();
        proof {
            lemma_xor_zero_iff_equal(sel, AutoNegCap::SEL_802_3);
            lemma_xor_zero_iff_equal(sel, AutoNegCap::SEL_802_5);
            lemma_xor_zero_iff_equal(sel, AutoNegCap::SEL_802_9_ISLAN_16T);
            lemma_xor_zero_iff_equal(sel, AutoNegCap::SEL_1394);
        }
        if sel ^ AutoNegCap::SEL_802_3 == 0 {
            Some(SelectorField::Std802_3)
        } else if sel ^ AutoNegCap::SEL_802_5 == 0 {
            Some(SelectorField::Std802_5)
        } else if sel ^ AutoNegCap::SEL_802_9_ISLAN_16T == 0 {
            Some(SelectorField::Std802_9Islan16t)
        } else if sel ^ AutoNegCap::SEL_1394 == 0 {
            Some(SelectorField::Std1394)
        } else {
            None
        }
    }
}

impl From<AutoNegCap> for Option<SelectorField> {
    fn from(ana: AutoNegCap) -> (r: Option<SelectorField>) {
        SelectorField::from_cap(ana)
    }
}

impl vstd::std_specs::convert::FromSpecImpl<AutoNegCap> for Option<SelectorField> {
    open spec fn obeys_from_spec() -> bool {
        true
    }

    open spec fn from_spec(ana: AutoNegCap) -> Option<SelectorField> {
        selector_of_bits(ana@)
    }
}

impl SelectorField {
    /// The selector field bits that encode this selector.
    pub fn bits(&self) -> (r: u16)
        ensures
            r == selector_bits(*self),
    {
        match self {
            SelectorField::Std802_3 => AutoNegCap::SEL_802_3,
            SelectorField::Std802_9Islan16t => AutoNegCap::SEL_802_9_ISLAN_16T,
            SelectorField::Std802_5 => AutoNegCap::SEL_802_5,
            SelectorField::Std1394 => AutoNegCap::SEL_1394,
        }
    }
}

impl From<SelectorField> for AutoNegCap {
    fn from(sf: SelectorField) -> (r: AutoNegCap) {
        AutoNegCap::from_bits_truncate(sf.bits())
    }
}

impl vstd::std_specs::convert::FromSpecImpl<SelectorField> for AutoNegCap {
    open spec fn obeys_from_spec() -> bool {
        true
    }

    open spec fn from_spec(sf: SelectorField) -> AutoNegCap {
        AutoNegCap { bits: selector_bits(sf) }
    }
}

/// The PHY IDENT of this PHY: the two raw identifier words.
#[derive(Clone, Copy, Debug, PartialEq, Eq, Structural)]
pub struct PhyIdent(pub u16, pub u16);

impl PhyIdent {
    /// Create a new PhyIdent
    pub fn new(phy_ident_1: u16, phy_ident_2: u16) -> (r: PhyIdent)
        ensures
            r.0 == phy_ident_1,
            r.1 == phy_ident_2,
    {
        PhyIdent(phy_ident_1, phy_ident_2)
    }

    /// The raw values of this PhyIdent
    pub fn raw(&self) -> (r: (u16, u16))
        ensures
            r == (self.0, self.1),
    {
        (self.0, self.1)
    }

    /// The raw value of this PhyIdent, as u32: the first word in the high
    /// half, the second in the low half.
    pub fn raw_u32(&self) -> (r: u32)
        ensures
            r == self.0 as u32 * 0x10000 + self.1 as u32,
    {
        let hi = self.0 as u32;
        let lo = self.1 as u32;
        assert((hi << 16u32 | lo) == hi * 0x10000 + lo) by (bit_vector)
            requires
                hi < 0x10000,
                lo < 0x10000,
        ;
        (hi << 16u32) | lo
    }

    /// The OUI bits carried by this PhyIdent: the 16 bits of the first word
    /// followed by the top six bits of the second word.
    pub fn oui(&self) -> (r: u32)
        ensures
            r == self.0 as u32 * 64 + self.1 as u32 / 1024,
    {
        let hi = self.0 as u32;
        let lo = self.1 as u32;
        assert(hi << 6u32 | lo >> 10u32 == hi * 64 + lo / 1024) by (bit_vector)
            requires
                hi < 0x10000,
                lo < 0x10000,
        ;
        hi << 6u32 | lo >> 10u32
    }

    /// The model number of this PhyIdent: bits 4 to 9 of the second word.
    pub fn model_number(&self) -> (r: u8)
        ensures
            r == (self.1 / 16) % 64,
    {
        let w = self.1;
        assert(((w >> 4u16) as u8 & 0x3fu8) as int == (w / 16) % 64) by (bit_vector);
        (w >> 4u16) as u8 & 0x3f
    }

    /// The revision number of this PhyIdent: the low four bits of the second
    /// word.
    pub fn revision(&self) -> (r: u8)
        ensures
            r == self.1 % 16,
    {
        let w = self.1;
        assert((w as u8 & 0x0fu8) as int == w % 16) by (bit_vector);
        w as u8 & 0x0f
    }
}

/// The pause mode supported by this PHY
#[derive(Clone, Copy, Debug, PartialEq, Eq, Structural)]
pub enum Pause {
    /// The PHY supports no PAUSE modes
    NoPause,
    /// The PHY supports asymmetric PAUSE mode toward its link partner
    AsymmetricPartner,
    /// The PHY supports symmetric PAUSE mode
    Symmetric,
    /// The PHY supports both symmetric pause and asymmetric PAUSE towards the
    /// local device
    SymmetricAndAsymmetricLocal,
}

impl Default for Pause {
    fn default() -> (r: Pause)
        ensures
            r == Pause::NoPause,
    {
        Pause::NoPause
    }
}

/// The pause mode that the two PAUSE bits of a capability register select.
pub open spec fn pause_of_bits(bits: u16) -> Pause {
    let asym = has_bits(bits, AutoNegCap::ASYMMETRIC_PAUSE);
    let sym = has_bits(bits, AutoNegCap::PAUSE);
    if !asym && !sym {
        Pause::NoPause
    } else if asym && !sym {
        Pause::AsymmetricPartner
    } else if !asym && sym {
        Pause::Symmetric
    } else {
        Pause::SymmetricAndAsymmetricLocal
    }
}

/// The PAUSE bits that encode `pause`.
pub open spec fn pause_bits(pause: Pause) -> u16 {
    match pause {
        Pause::NoPause => 0,
        Pause::AsymmetricPartner => AutoNegCap::ASYMMETRIC_PAUSE,
        Pause::Symmetric => AutoNegCap::PAUSE,
        Pause::SymmetricAndAsymmetricLocal => AutoNegCap::ASYMMETRIC_PAUSE | AutoNegCap::PAUSE,
    }
}

impl Pause {
    /// The pause mode that the PAUSE bits of `ana` select.
    pub fn from_cap(ana: AutoNegCap) -> (r: Pause)
        ensures
            r == pause_of_bits(ana@),
    {
        let asym = ana.contains(AutoNegCap::ASYMMETRIC_PAUSE);
        let sym = ana.contains(AutoNegCap::PAUSE);
        match (asym, sym) {
            (false, false) => Pause::NoPause,
            (true, false) => Pause::AsymmetricPartner,
            (false, true) => Pause::Symmetric,
            (true, true) => Pause::SymmetricAndAsymmetricLocal,
        }
    }
}

impl From<AutoNegCap> for Pause {
    fn from(ana: AutoNegCap) -> (r: Pause) {
        Pause::from_cap(ana)
    }
}

impl vstd::std_specs::convert::FromSpecImpl<AutoNegCap> for Pause {
    open spec fn obeys_from_spec() -> bool {
        true
    }

    open spec fn from_spec(ana: AutoNegCap) -> Pause {
        pause_of_bits(ana@)
    }
}

impl Pause {
    /// The PAUSE bits that encode this pause mode.
    pub fn bits(&self) -> (r: u16)
        ensures
            r == pause_bits(*self),
    {
        match self {
            Pause::NoPause => 0,
            Pause::AsymmetricPartner => AutoNegCap::ASYMMETRIC_PAUSE,
            Pause::Symmetric => AutoNegCap::PAUSE,
            Pause::SymmetricAndAsymmetricLocal => AutoNegCap::ASYMMETRIC_PAUSE | AutoNegCap::PAUSE,
        }
    }
}

impl From<Pause> for AutoNegCap {
    fn from(pause: Pause) -> (r: AutoNegCap) {
        AutoNegCap::from_bits_truncate(pause.bits())
    }
}

impl vstd::std_specs::convert::FromSpecImpl<Pause> for AutoNegCap {
    open spec fn obeys_from_spec() -> bool {
        true
    }

    open spec fn from_spec(pause: Pause) -> AutoNegCap {
        AutoNegCap { bits: pause_bits(pause) }
    }
}

/// An autonegotiation advertisement.
#[derive(Clone, Copy, Debug, PartialEq, Eq, Structural)]
pub struct AutoNegotiationAdvertisement {
    /// The type of message sent
    pub selector_field: Option<SelectorField>,
    /// The PHY supports 10BASE-T
    pub hd_10base_t: bool,
    /// The PHY supports 10BASE-T Full Duplex
    pub fd_10base_t: bool,
    /// The PHY supports 100BASE-TX
    pub hd_100base_tx: bool,
    /// The PHY supports 100BASE-TX Full Duplex
    pub fd_100base_tx: bool,
    /// The PHY supports 100BASE-T4
    pub base100_t4: bool,
    /// The pause mode supported by the PHY
    pub pause: Pause,
}

/// The advertisement with the IEEE 802.3 selector, no technology and no PAUSE.
pub open spec fn default_ad() -> AutoNegotiationAdvertisement {
    AutoNegotiationAdvertisement {
        selector_field: Some(SelectorField::Std802_3),
        hd_10base_t: false,
        fd_10base_t: false,
        hd_100base_tx: false,
        fd_100base_tx: false,
        base100_t4: false,
        pause: Pause::NoPause,
    }
}

impl Default for AutoNegotiationAdvertisement {
    fn default() -> (r: AutoNegotiationAdvertisement)
        ensures
            r == default_ad(),
    {
        AutoNegotiationAdvertisement {
            selector_field: Some(SelectorField::default()),
            hd_10base_t: false,
            fd_10base_t: false,
            hd_100base_tx: false,
            fd_100base_tx: false,
            base100_t4: false,
            pause: Pause::default(),
        }
    }
}

/// The advertisement that the raw bits of a capability register describe.
pub open spec fn ad_of_bits(bits: u16) -> AutoNegotiationAdvertisement {
    AutoNegotiationAdvertisement {
        selector_field: selector_of_bits(bits),
        hd_10base_t: has_bits(bits, AutoNegCap::BASE10_T),
        fd_10base_t: has_bits(bits, AutoNegCap::BASE10_T_FD),
        hd_100base_tx: has_bits(bits, AutoNegCap::BASE100_TX),
        fd_100base_tx: has_bits(bits, AutoNegCap::BASE100_TX_FD),
        base100_t4: has_bits(bits, AutoNegCap::BASE100_T4),
        pause: pause_of_bits(bits),
    }
}

impl AutoNegotiationAdvertisement {
    /// The advertisement that the capability register `ana` describes.
    pub fn from_cap(ana: AutoNegCap) -> (r: AutoNegotiationAdvertisement)
        ensures
            r == ad_of_bits(ana@),
    {
        AutoNegotiationAdvertisement {
            selector_field: SelectorField::from_cap(ana),
            hd_10base_t: ana.contains(AutoNegCap::BASE10_T),
            fd_10base_t: ana.contains(AutoNegCap::BASE10_T_FD),
            hd_100base_tx: ana.contains(AutoNegCap::BASE100_TX),
            fd_100base_tx: ana.contains(AutoNegCap::BASE100_TX_FD),
            base100_t4: ana.contains(AutoNegCap::BASE100_T4),
            pause: Pause::from_cap(ana),
        }
    }
}

impl From<AutoNegCap> for AutoNegotiationAdvertisement {
    fn from(ana: AutoNegCap) -> (r: AutoNegotiationAdvertisement) {
        AutoNegotiationAdvertisement::from_cap(ana)
    }
}

impl vstd::std_specs::convert::FromSpecImpl<AutoNegCap> for AutoNegotiationAdvertisement {
    open spec fn obeys_from_spec() -> bool {
        true
    }

    open spec fn from_spec(ana: AutoNegCap) -> AutoNegotiationAdvertisement {
        ad_of_bits(ana@)
    }
}

/// Decoding the speed selection bits of a BCR that selects a legal speed and
/// encoding that speed again gives back exactly the speed selection bits; and
/// encoding a legal speed and decoding it gives back the speed.
pub proof fn lemma_link_speed_round_trip(bits: u16, speed: LinkSpeed)
    requires
        speed_of_bits(bits) != LinkSpeed::Illegal,
        speed != LinkSpeed::Illegal,
    ensures
        speed_bits(speed_of_bits(bits)) == bits & (Bcr::SPEED_SEL_MSB | Bcr::SPEED_SEL_LSB),
        speed_of_bits(speed_bits(speed)) == speed,
{
    assert(0x0040u16 | 0x2000u16 == 0x2040u16) by (bit_vector);
    assert({
        &&& ((bits & 0x40) == 0x40 && (bits & 0x2000) != 0x2000) ==> bits & 0x2040 == 0x40
        &&& ((bits & 0x40) != 0x40 && (bits & 0x2000) == 0x2000) ==> bits & 0x2040 == 0x2000
        &&& ((bits & 0x40) != 0x40 && (bits & 0x2000) != 0x2000) ==> bits & 0x2040 == 0
    }) by (bit_vector);
    assert({
        &&& 0x40u16 & 0x40u16 == 0x40u16 && 0x40u16 & 0x2000u16 != 0x2000u16
        &&& 0x2000u16 & 0x40u16 != 0x40u16 && 0x2000u16 & 0x2000u16 == 0x2000u16
        &&& 0u16 & 0x40u16 != 0x40u16 && 0u16 & 0x2000u16 != 0x2000u16
    }) by (bit_vector);
}

/// A BCR decodes to `LinkSpeed::Illegal` exactly when both speed selection
/// bits are set; no legal speed encodes to such bits, so `Illegal` has no
/// encoding (which is why [`Bcr::from_link_speed`] refuses it).
pub proof fn lemma_illegal_link_speed(bits: u16, speed: LinkSpeed)
    requires
        speed != LinkSpeed::Illegal,
    ensures
        (speed_of_bits(bits) == LinkSpeed::Illegal) == (bits & (Bcr::SPEED_SEL_MSB
            | Bcr::SPEED_SEL_LSB) == Bcr::SPEED_SEL_MSB | Bcr::SPEED_SEL_LSB),
        speed_bits(speed) & (Bcr::SPEED_SEL_MSB | Bcr::SPEED_SEL_LSB) != Bcr::SPEED_SEL_MSB
            | Bcr::SPEED_SEL_LSB,
{
    assert(0x0040u16 | 0x2000u16 == 0x2040u16) by (bit_vector);
    assert(((bits & 0x40) == 0x40 && (bits & 0x2000) == 0x2000) == (bits & 0x2040 == 0x2040))
        by (bit_vector);
    assert({
        &&& 0x40u16 & 0x2040u16 != 0x2040u16
        &&& 0x2000u16 & 0x2040u16 != 0x2040u16
        &&& 0u16 & 0x2040u16 != 0x2040u16
    }) by (bit_vector);
}

/// Decoding the PAUSE bits of a capability register and encoding the result
/// gives back exactly those bits; encoding a pause mode and decoding it gives
/// back the mode.
pub proof fn lemma_pause_round_trip(bits: u16, pause: Pause)
    ensures
        pause_bits(pause_of_bits(bits)) == bits & (AutoNegCap::ASYMMETRIC_PAUSE
            | AutoNegCap::PAUSE),
        pause_of_bits(pause_bits(pause)) == pause,
{
    assert(0x0800u16 | 0x0400u16 == 0x0c00u16) by (bit_vector);
    assert({
        &&& ((bits & 0x800) != 0x800 && (bits & 0x400) != 0x400) ==> bits & 0xc00 == 0
        &&& ((bits & 0x800) == 0x800 && (bits & 0x400) != 0x400) ==> bits & 0xc00 == 0x800
        &&& ((bits & 0x800) != 0x800 && (bits & 0x400) == 0x400) ==> bits & 0xc00 == 0x400
        &&& ((bits & 0x800) == 0x800 && (bits & 0x400) == 0x400) ==> bits & 0xc00 == 0xc00
    }) by (bit_vector);
    assert({
        &&& 0u16 & 0x800u16 != 0x800u16 && 0u16 & 0x400u16 != 0x400u16
        &&& 0x800u16 & 0x800u16 == 0x800u16 && 0x800u16 & 0x400u16 != 0x400u16
        &&& 0x400u16 & 0x800u16 != 0x800u16 && 0x400u16 & 0x400u16 == 0x400u16
        &&& 0xc00u16 & 0x800u16 == 0x800u16 && 0xc00u16 & 0x400u16 == 0x400u16
    }) by (bit_vector);
}

/// Decoding the selector bits of a capability register that hold a known
/// selector and encoding the result gives back exactly those bits; encoding a
/// selector and decoding it gives back the selector.
pub proof fn lemma_selector_round_trip(bits: u16, sf: SelectorField)
    ensures
        selector_of_bits(bits) is Some ==> selector_bits(selector_of_bits(bits)->0) == bits
            & AutoNegCap::SEL_MASK,
        selector_of_bits(selector_bits(sf)) == Some(sf),
{
    assert({
        &&& 1u16 & 0x1fu16 == 1u16
        &&& 2u16 & 0x1fu16 == 2u16
        &&& 3u16 & 0x1fu16 == 3u16
        &&& 4u16 & 0x1fu16 == 4u16
    }) by (bit_vector);
}

/// The selector bits decode to a selector only when they equal its encoding
/// exactly: bits beyond a known pattern decode to no selector, never to the
/// nearest known one.
pub proof fn lemma_selector_exact(bits: u16)
    ensures
        selector_of_bits(bits) is Some ==> bits & AutoNegCap::SEL_MASK == selector_bits(
            selector_of_bits(bits)->0,
        ),
        (forall|sf: SelectorField| bits & AutoNegCap::SEL_MASK != #[trigger] selector_bits(sf))
            ==> selector_of_bits(bits) is None,
{
    if selector_of_bits(bits) is Some {
        let sf = selector_of_bits(bits)->0;
        assert(bits & AutoNegCap::SEL_MASK == selector_bits(sf));
    }
    if forall|sf: SelectorField| bits & AutoNegCap::SEL_MASK != #[trigger] selector_bits(sf) {
        assert(bits & AutoNegCap::SEL_MASK != selector_bits(SelectorField::Std802_3));
        assert(bits & AutoNegCap::SEL_MASK != selector_bits(SelectorField::Std802_5));
        assert(bits & AutoNegCap::SEL_MASK != selector_bits(SelectorField::Std802_9Islan16t));
        assert(bits & AutoNegCap::SEL_MASK != selector_bits(SelectorField::Std1394));
    }
}

} // verus!
