//! The standard PHY contract: register access sequences of an IEEE 802.3
//! PHY, with the gating rules of its optional capability bits.
use crate::caps::{
    ad_of_bits, ext_status_of_bits, pause_bits, pause_of_bits, selector_bits, selector_of_bits,
    status_of_bits, AutoNegotiationAdvertisement, ExtendedPhyStatus, PhyIdent, PhyStatus,
};
use crate::miim::{read_op, write_op, BusOp, Miim};
use crate::registers::{has_bits, Ane, AutoNegCap, Bcr, Bsr, Esr};
use vstd::prelude::*;

verus! {

/// `m` when `cond` holds, no bit otherwise.
pub open spec fn flag_if(cond: bool, m: u16) -> u16 {
    if cond {
        m
    } else {
        0
    }
}

/// The capability bits written for the advertisement `ad` on a PHY whose
/// status is `status`: each technology only when it is both requested and
/// supported, the requested selector field (if any) and the requested PAUSE.
pub open spec fn advertised_bits(ad: AutoNegotiationAdvertisement, status: PhyStatus) -> u16 {
    flag_if(ad.hd_10base_t && status.hd_10mbps, AutoNegCap::BASE10_T) | flag_if(
        ad.fd_10base_t && status.fd_10mbps,
        AutoNegCap::BASE10_T_FD,
    ) | flag_if(ad.hd_100base_tx && status.hd_100base_x, AutoNegCap::BASE100_TX) | flag_if(
        ad.fd_100base_tx && status.fd_100base_x,
        AutoNegCap::BASE100_TX_FD,
    ) | flag_if(ad.base100_t4 && status.base100_t4, AutoNegCap::BASE100_T4) | match ad.selector_field {
        Some(sf) => selector_bits(sf),
        None => 0,
    } | pause_bits(ad.pause)
}

/// The value written back to the BCR when autonegotiation is (re)started over
/// a BCR read as `bcr`.
pub open spec fn autoneg_restart_bits(bcr: u16) -> u16 {
    bcr & Bcr::ALL | Bcr::AUTONEG_ENABLE | Bcr::RESTART_AUTONEG
}

fn flag_if_exec(cond: bool, m: u16) -> (r: u16)
    ensures
        r == flag_if(cond, m),
{
    if cond {
        m
    } else {
        0
    }
}

/// `bcr` with the reset bit set.
fn with_reset(bcr: Bcr) -> (r: Bcr)
    ensures
        r@ == bcr@ | Bcr::RESET,
{
    let mut bcr = bcr;
    bcr.reset(true);
    bcr
}

/// `bcr` with autonegotiation enabled and its restart requested.
fn with_autoneg_restart(bcr: Bcr) -> (r: Bcr)
    ensures
        r@ == bcr@ | Bcr::AUTONEG_ENABLE | Bcr::RESTART_AUTONEG,
{
    let mut bcr = bcr;
    bcr.set_autonegotiation(true);
    bcr.restart_autonegotiation();
    bcr
}

/// An IEEE 802.3 compatible PHY, reached at one address of a management bus.
pub trait Phy<M: Miim> {
    /// The register operations issued through this PHY, oldest first.
    spec fn history(&self) -> Seq<BusOp>;

    /// The address of this PHY on its bus.
    spec fn address(&self) -> u8;

    /// Whether this kind of PHY has an extended status register. A kind
    /// without one may answer [`Self::esr`] and [`Self::extended_status`]
    /// with `None` and no register access.
    spec fn has_esr(&self) -> bool;

    /// The best advertisement this PHY can send out.
    ///
    /// "Best", in this case, means largest amount of supported features
    fn best_supported_advertisement(&self) -> AutoNegotiationAdvertisement;

    /// Get a mutable reference to the management bus of this PHY. Operations
    /// made directly on it are not part of [`Self::history`].
    fn get_miim(&mut self) -> (r: &mut M)
        ensures
            final(self).history() == old(self).history(),
            final(self).address() == old(self).address(),
    ;

    /// Get the address of this PHY
    fn get_phy_addr(&self) -> (r: u8)
        ensures
            r == self.address(),
    ;

    /// Read a PHY register over MIIM. An implementation reads it on its bus
    /// and records the read in [`Self::history`].
    fn read(&mut self, address: u8) -> (r: u16)
        ensures
            final(self).address() == old(self).address(),
            final(self).history() == old(self).history().push(
                read_op(old(self).address(), address, r),
            ),
    ;

    /// Write a PHY register over MIIM. An implementation writes it on its bus
    /// and records the write in [`Self::history`].
    fn write(&mut self, address: u8, value: u16)
        ensures
            final(self).address() == old(self).address(),
            final(self).history() == old(self).history().push(
                write_op(old(self).address(), address, value),
            ),
    ;

    /// Get the value of the Base Control Register of this PHY
    fn bcr(&mut self) -> (r: Bcr)
        ensures
            ({
                let h = final(self).history();
                let v = h.last().value;
                &&& final(self).address() == old(self).address()
                &&& h == old(self).history().push(read_op(old(self).address(), Bcr::ADDRESS, v))
                &&& r@ == v & Bcr::ALL
            }),
    {
        Bcr::from_bits_truncate(self.read(Bcr::ADDRESS))
    }

    /// Modify the Base Control Register of this PHY: read it, hand it to `f`,
    /// and write back what `f` returns.
    fn modify_bcr<F: FnOnce(Bcr) -> Bcr>(&mut self, f: F)
        requires
            forall|b: Bcr| f.requires((b,)),
        ensures
            ({
                let h0 = old(self).history();
                let h = final(self).history();
                let a = old(self).address();
                let v = h[h0.len() as int].value;
                let w = h[h0.len() + 1int].value;
                &&& final(self).address() == a
                &&& h == h0.push(read_op(a, Bcr::ADDRESS, v)).push(write_op(a, Bcr::ADDRESS, w))
                &&& f.ensures((Bcr { bits: v & Bcr::ALL },), Bcr { bits: w })
            }),
    {
        let bcr = self.bcr();
        let new_bcr = f(bcr);
        self.write(Bcr::ADDRESS, new_bcr.bits());
    }

    /// Check if the PHY is currently resetting
    fn is_resetting(&mut self) -> (r: bool)
        ensures
            ({
                let h = final(self).history();
                let v = h.last().value;
                &&& final(self).address() == old(self).address()
                &&& h == old(self).history().push(read_op(old(self).address(), Bcr::ADDRESS, v))
                &&& r == has_bits(v & Bcr::ALL, Bcr::RESET)
            }),
    {
        self.bcr().is_resetting()
    }

    /// Reset the PHY: set the reset bit of the BCR by a read-modify-write.
    /// The reset is over once [`Self::is_resetting`] reports false.
    fn reset(&mut self)
        ensures
            ({
                let h0 = old(self).history();
                let h = final(self).history();
                let a = old(self).address();
                let v = h[h0.len() as int].value;
                &&& final(self).address() == a
                &&& h == h0.push(read_op(a, Bcr::ADDRESS, v)).push(
                    write_op(a, Bcr::ADDRESS, v & Bcr::ALL | Bcr::RESET),
                )
            }),
    {
        self.modify_bcr(with_reset);
    }

    /// Get the value of the Base Status Register of this PHY
    fn bsr(&mut self) -> (r: Bsr)
        ensures
            ({
                let h = final(self).history();
                let v = h.last().value;
                &&& final(self).address() == old(self).address()
                &&& h == old(self).history().push(read_op(old(self).address(), Bsr::ADDRESS, v))
                &&& r@ == v
            }),
    {
        Bsr::from_bits_truncate(self.read(Bsr::ADDRESS))
    }

    /// Check if the PHY reports its link as being up
    fn phy_link_up(&mut self) -> (r: bool)
        ensures
            ({
                let h = final(self).history();
                let v = h.last().value;
                &&& final(self).address() == old(self).address()
                &&& h == old(self).history().push(read_op(old(self).address(), Bsr::ADDRESS, v))
                &&& r == has_bits(v, Bsr::LINK_STATUS)
            }),
    {
        self.bsr().phy_link_up()
    }

    /// Check if the PHY reports its autonegotiation process as having
    /// completed
    fn autoneg_completed(&mut self) -> (r: bool)
        ensures
            ({
                let h = final(self).history();
                let v = h.last().value;
                &&& final(self).address() == old(self).address()
                &&& h == old(self).history().push(read_op(old(self).address(), Bsr::ADDRESS, v))
                &&& r == has_bits(v, Bsr::AUTONEG_COMPLETE)
            }),
    {
        self.bsr().autoneg_completed()
    }

    /// Read the status register for this PHY
    fn status(&mut self) -> (r: PhyStatus)
        ensures
            ({
                let h = final(self).history();
                let v = h.last().value;
                &&& final(self).address() == old(self).address()
                &&& h == old(self).history().push(read_op(old(self).address(), Bsr::ADDRESS, v))
                &&& r == status_of_bits(v)
            }),
    {
        let bsr = self.bsr();
        PhyStatus::from_bsr(bsr)
    }

    /// Read the ESR for this PHY. Returns `None` if `extended_status` in
    /// [`Self::status`] is false, or if this kind of PHY has no ESR
    /// ([`Self::has_esr`]). On a PHY with an ESR whose status has
    /// `extended_status` set, the ESR is read and returned.
    fn esr(&mut self) -> (r: Option<Esr>)
        ensures
            ({
                let h0 = old(self).history();
                let h = final(self).history();
                let a = old(self).address();
                let s = h[h0.len() as int].value;
                let x = h[h0.len() + 1int].value;
                &&& final(self).address() == a
                &&& match r {
                    Some(e) => {
                        &&& status_of_bits(s).extended_status
                        &&& h == h0.push(read_op(a, Bsr::ADDRESS, s)).push(
                            read_op(a, Esr::ADDRESS, x),
                        )
                        &&& e@ == x & Esr::ALL
                    },
                    None => (!old(self).has_esr() && h == h0) || (
                    !status_of_bits(s).extended_status && h == h0.push(read_op(a, Bsr::ADDRESS, s))),
                }
            }),
    {
        if self.status().extended_status {
            Some(Esr::from_bits_truncate(self.read(Esr::ADDRESS)))
        } else {
            None
        }
    }

    /// Read the Extended Status Register for this PHY. Returns `None` if
    /// `extended_status` in [`Self::status`] is false, or if this kind of PHY
    /// has no ESR.
    fn extended_status(&mut self) -> (r: Option<ExtendedPhyStatus>)
        ensures
            ({
                let h0 = old(self).history();
                let h = final(self).history();
                let a = old(self).address();
                let s = h[h0.len() as int].value;
                let x = h[h0.len() + 1int].value;
                &&& final(self).address() == a
                &&& match r {
                    Some(e) => {
                        &&& status_of_bits(s).extended_status
                        &&& h == h0.push(read_op(a, Bsr::ADDRESS, s)).push(
                            read_op(a, Esr::ADDRESS, x),
                        )
                        &&& e == ext_status_of_bits(x)
                    },
                    None => (!old(self).has_esr() && h == h0) || (
                    !status_of_bits(s).extended_status && h == h0.push(read_op(a, Bsr::ADDRESS, s))),
                }
            }),
    {
        let esr = self.esr();
        proof {
            lemma_esr_flags_defined(self.history().last().value);
        }
        match esr {
            Some(esr) => Some(ExtendedPhyStatus::from_esr(esr)),
            None => None,
        }
    }

    /// Read the PHY identifier for this PHY (registers 2 and 3).
    ///
    /// Returns `None` if `extended_caps` in [`Self::status`] is false
    fn phy_ident(&mut self) -> (r: Option<PhyIdent>)
        ensures
            ({
                let h0 = old(self).history();
                let h = final(self).history();
                let a = old(self).address();
                let s = h[h0.len() as int].value;
                let msb = h[h0.len() + 1int].value;
                let lsb = h[h0.len() + 2int].value;
                &&& final(self).address() == a
                &&& if status_of_bits(s).extended_caps {
                    &&& h == h0.push(read_op(a, Bsr::ADDRESS, s)).push(read_op(a, 2, msb)).push(
                        read_op(a, 3, lsb),
                    )
                    &&& r == Some(PhyIdent(msb, lsb))
                } else {
                    &&& h == h0.push(read_op(a, Bsr::ADDRESS, s))
                    &&& r is None
                }
            }),
    {
        if self.status().extended_caps {
            let msb = self.read(2);
            let lsb = self.read(3);
            Some(PhyIdent::new(msb, lsb))
        } else {
            None
        }
    }

    /// Set the autonegotiation advertisement and restart the autonegotiation
    /// process.
    ///
    /// Only technologies that [`Self::status`] reports as supported are
    /// advertised. The capability register is written before the BCR is
    /// updated, in one read-modify-write, to enable and restart
    /// autonegotiation.
    ///
    /// This is a no-op if `extended_caps` in [`Self::status`] is false
    fn set_autonegotiation_advertisement(&mut self, ad: AutoNegotiationAdvertisement)
        ensures
            ({
                let h0 = old(self).history();
                let h = final(self).history();
                let a = old(self).address();
                let s = h[h0.len() as int].value;
                let c = h[h0.len() + 2int].value;
                &&& final(self).address() == a
                &&& if status_of_bits(s).extended_caps {
                    h == h0.push(read_op(a, Bsr::ADDRESS, s)).push(
                        write_op(
                            a,
                            AutoNegCap::LOCAL_CAP_ADDRESS,
                            advertised_bits(ad, status_of_bits(s)),
                        ),
                    ).push(read_op(a, Bcr::ADDRESS, c)).push(
                        write_op(a, Bcr::ADDRESS, autoneg_restart_bits(c)),
                    )
                } else {
                    h == h0.push(read_op(a, Bsr::ADDRESS, s))
                }
            }),
    {
        let status = self.status();
        if !status.extended_caps {
            return;
        }
        let selector = match ad.selector_field {
            Some(sf) => sf.bits(),
            None => 0,
        };
        let bits = flag_if_exec(ad.hd_10base_t && status.hd_10mbps, AutoNegCap::BASE10_T)
            | flag_if_exec(ad.fd_10base_t && status.fd_10mbps, AutoNegCap::BASE10_T_FD)
            | flag_if_exec(ad.hd_100base_tx && status.hd_100base_x, AutoNegCap::BASE100_TX)
            | flag_if_exec(ad.fd_100base_tx && status.fd_100base_x, AutoNegCap::BASE100_TX_FD)
            | flag_if_exec(ad.base100_t4 && status.base100_t4, AutoNegCap::BASE100_T4)
            | selector | ad.pause.bits();
        let ana = AutoNegCap::from_bits_truncate(bits);
        self.write(AutoNegCap::LOCAL_CAP_ADDRESS, ana.bits());
        self.modify_bcr(with_autoneg_restart);
    }

    /// Get the advertised capabilities of this PHY (register 4).
    ///
    /// Returns `None` if `extended_caps` in [`Self::status`] is false
    fn get_autonegotiation_caps(&mut self) -> (r: Option<AutoNegotiationAdvertisement>)
        ensures
            ({
                let h0 = old(self).history();
                let h = final(self).history();
                let a = old(self).address();
                let s = h[h0.len() as int].value;
                let x = h[h0.len() + 1int].value;
                &&& final(self).address() == a
                &&& if status_of_bits(s).extended_caps {
                    &&& h == h0.push(read_op(a, Bsr::ADDRESS, s)).push(
                        read_op(a, AutoNegCap::LOCAL_CAP_ADDRESS, x),
                    )
                    &&& r == Some(ad_of_bits(x))
                } else {
                    &&& h == h0.push(read_op(a, Bsr::ADDRESS, s))
                    &&& r is None
                }
            }),
    {
        let status = self.status();
        if !status.extended_caps {
            return None;
        }
        let ana = AutoNegCap::from_bits_truncate(self.read(AutoNegCap::LOCAL_CAP_ADDRESS));
        Some(AutoNegotiationAdvertisement::from_cap(ana))
    }

    /// Get the capabilities of the autonegotiation partner of this PHY
    /// (register 5).
    ///
    /// Returns `None` if `extended_caps` in [`Self::status`] is false
    fn get_autonegotiation_partner_caps(&mut self) -> (r: Option<AutoNegotiationAdvertisement>)
        ensures
            ({
                let h0 = old(self).history();
                let h = final(self).history();
                let a = old(self).address();
                let s = h[h0.len() as int].value;
                let x = h[h0.len() + 1int].value;
                &&& final(self).address() == a
                &&& if status_of_bits(s).extended_caps {
                    &&& h == h0.push(read_op(a, Bsr::ADDRESS, s)).push(
                        read_op(a, AutoNegCap::PARTNER_CAP_ADDRESS, x),
                    )
                    &&& r == Some(ad_of_bits(x))
                } else {
                    &&& h == h0.push(read_op(a, Bsr::ADDRESS, s))
                    &&& r is None
                }
            }),
    {
        let status = self.status();
        if !status.extended_caps {
            return None;
        }
        let ana = AutoNegCap::from_bits_truncate(self.read(AutoNegCap::PARTNER_CAP_ADDRESS));
        Some(AutoNegotiationAdvertisement::from_cap(ana))
    }

    /// Read the autonegotiation expansion register (register 6).
    ///
    /// Returns `None` if `extended_caps` in [`Self::status`] is false
    fn ane(&mut self) -> (r: Option<Ane>)
        ensures
            ({
                let h0 = old(self).history();
                let h = final(self).history();
                let a = old(self).address();
                let s = h[h0.len() as int].value;
                let x = h[h0.len() + 1int].value;
                &&& final(self).address() == a
                &&& if status_of_bits(s).extended_caps {
                    &&& h == h0.push(read_op(a, Bsr::ADDRESS, s)).push(read_op(a, Ane::ADDRESS, x))
                    &&& r == Some(Ane { bits: x & Ane::ALL })
                } else {
                    &&& h == h0.push(read_op(a, Bsr::ADDRESS, s))
                    &&& r is None
                }
            }),
    {
        if self.status().extended_caps {
            Some(Ane::from_bits_truncate(self.read(Ane::ADDRESS)))
        } else {
            None
        }
    }
}

/// Clearing the undefined bits of an ESR keeps every capability flag.
proof fn lemma_esr_flags_defined(x: u16)
    ensures
        ext_status_of_bits(x & Esr::ALL) == ext_status_of_bits(x),
{
    assert({
        &&& ((x & 0xf000) & 0x8000 == 0x8000) == (x & 0x8000 == 0x8000)
        &&& ((x & 0xf000) & 0x4000 == 0x4000) == (x & 0x4000 == 0x4000)
        &&& ((x & 0xf000) & 0x2000 == 0x2000) == (x & 0x2000 == 0x2000)
        &&& ((x & 0xf000) & 0x1000 == 0x1000) == (x & 0x1000 == 0x1000)
    }) by (bit_vector);
}

/// The capability bits written for an advertisement describe exactly the
/// requested technologies that the PHY supports, together with the requested
/// selector field and PAUSE mode: a capability that the hardware lacks is never
/// advertised.
pub proof fn lemma_advertised_bits_intersect(ad: AutoNegotiationAdvertisement, status: PhyStatus)
    ensures
        ad_of_bits(advertised_bits(ad, status)) == (AutoNegotiationAdvertisement {
            selector_field: ad.selector_field,
            hd_10base_t: ad.hd_10base_t && status.hd_10mbps,
            fd_10base_t: ad.fd_10base_t && status.fd_10mbps,
            hd_100base_tx: ad.hd_100base_tx && status.hd_100base_x,
            fd_100base_tx: ad.fd_100base_tx && status.fd_100base_x,
            base100_t4: ad.base100_t4 && status.base100_t4,
            pause: ad.pause,
        }),
{
    let t1 = flag_if(ad.hd_10base_t && status.hd_10mbps, AutoNegCap::BASE10_T);
    let t2 = flag_if(ad.fd_10base_t && status.fd_10mbps, AutoNegCap::BASE10_T_FD);
    let t3 = flag_if(ad.hd_100base_tx && status.hd_100base_x, AutoNegCap::BASE100_TX);
    let t4 = flag_if(ad.fd_100base_tx && status.fd_100base_x, AutoNegCap::BASE100_TX_FD);
    let t5 = flag_if(ad.base100_t4 && status.base100_t4, AutoNegCap::BASE100_T4);
    let sel = match ad.selector_field {
        Some(sf) => selector_bits(sf),
        None => 0,
    };
    let p = pause_bits(ad.pause);
    let b = advertised_bits(ad, status);
    assert(0x0800u16 | 0x0400u16 == 0x0c00u16) by (bit_vector);
    assert({
        &&& ((b & 0x20) == 0x20) == (t1 == 0x20)
        &&& ((b & 0x40) == 0x40) == (t2 == 0x40)
        &&& ((b & 0x80) == 0x80) == (t3 == 0x80)
        &&& ((b & 0x100) == 0x100) == (t4 == 0x100)
        &&& ((b & 0x200) == 0x200) == (t5 == 0x200)
        &&& b & 0x1f == sel
        &&& ((b & 0x800) == 0x800) == ((p & 0x800) == 0x800)
        &&& ((b & 0x400) == 0x400) == ((p & 0x400) == 0x400)
    }) by (bit_vector)
        requires
            t1 == 0 || t1 == 0x20,
            t2 == 0 || t2 == 0x40,
            t3 == 0 || t3 == 0x80,
            t4 == 0 || t4 == 0x100,
            t5 == 0 || t5 == 0x200,
            sel <= 4,
            p == 0 || p == 0x400 || p == 0x800 || p == 0xc00,
            b == t1 | t2 | t3 | t4 | t5 | sel | p,
    ;
    assert(pause_of_bits(b) == pause_of_bits(p));
    crate::caps::lemma_pause_round_trip(0, ad.pause);
    if let Some(sf) = ad.selector_field {
        crate::caps::lemma_selector_round_trip(sel, sf);
        assert(selector_of_bits(b) == selector_of_bits(selector_bits(sf)));
    } else {
        assert(selector_of_bits(b) is None);
    }
}

} // verus!
