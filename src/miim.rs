//! The management bus: a synchronous transport of register reads and writes.
use vstd::prelude::*;

verus! {

/// The direction of one management bus operation.
#[derive(Clone, Copy, Debug, PartialEq, Eq, Structural)]
pub enum Access {
    /// A register was read.
    Read,
    /// A register was written.
    Write,
}

/// One operation issued on the management bus: which register of which PHY
/// was accessed, and the value that was read or written.
#[derive(Clone, Copy, Debug, PartialEq, Eq, Structural)]
pub struct BusOp {
    /// Read or write.
    pub access: Access,
    /// The address of the PHY on the bus.
    pub phy: u8,
    /// The register address.
    pub reg: u8,
    /// The value read or written.
    pub value: u16,
}

/// A read of `reg` at `phy` that returned `value`.
pub open spec fn read_op(phy: u8, reg: u8, value: u16) -> BusOp {
    BusOp { access: Access::Read, phy, reg, value }
}

/// A write of `value` to `reg` at `phy`.
pub open spec fn write_op(phy: u8, reg: u8, value: u16) -> BusOp {
    BusOp { access: Access::Write, phy, reg, value }
}

/// A Media Independent Interface Management bus.
///
/// An implementation performs each operation on the wire, one at a time and in
/// call order, and blocks until it is done.
pub trait Miim {
    /// Read register `reg` of the PHY at address `phy`.
    fn read(&mut self, phy: u8, reg: u8) -> u16;

    /// Write `data` to register `reg` of the PHY at address `phy`.
    fn write(&mut self, phy: u8, reg: u8, data: u16);
}

} // verus!
