//! Typed access to the management registers of an IEEE 802.3 PHY over MIIM.
//!
//! Raw register contents are translated into domain values (status,
//! capabilities, autonegotiation advertisements), and the multi-step register
//! protocols (reset, autonegotiation, paged vendor registers, the hardware
//! clock) are carried out over a management bus that the caller provides.
//! Every operation states, as a sequence of [`BusOp`]s, exactly which register
//! reads and writes it issues and in what order.

pub mod caps;
pub mod controller;
pub mod miim;
pub mod phy;
mod ptp;
pub mod registers;

pub use caps::{
    AutoNegotiationAdvertisement, ExtendedPhyStatus, LinkSpeed, Pause, PhyIdent, PhyStatus,
    SelectorField,
};
pub use controller::Phy;
pub use miim::{Access, BusOp, Miim};
pub use ptp::PTP;
