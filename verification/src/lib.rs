//! Emulation of the legacy x86 PCI configuration-access mechanism: the
//! CONFIG_ADDRESS / CONFIG_DATA port pair, the address-register latch, the
//! byte-lane semantics of partial-width accesses, the type-1 probe
//! compatibility quirk, and the routing of decoded accesses to an in-memory
//! table of device configuration spaces.

pub mod bus;
pub mod host;
pub mod lanes;
pub mod ops;

pub use bus::PciBus;
pub use bus::PciDevice;
pub use host::PciHost;
pub use ops::PciError;
