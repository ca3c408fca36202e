//! Implementations of the PHY contract for specific devices.
use vstd::prelude::*;

pub mod dp83xxx;

verus! {

/// The speed and duplex mode at which a PHY operates its link.
#[derive(Clone, Copy, Debug, PartialEq, Eq, Structural)]
pub enum PhySpeed {
    /// 10BASE-T, half duplex
    HalfDuplexBase10T,
    /// 10BASE-T, full duplex
    FullDuplexBase10T,
    /// 100BASE-TX, half duplex
    HalfDuplexBase100Tx,
    /// 100BASE-TX, full duplex
    FullDuplexBase100Tx,
}

} // verus!
