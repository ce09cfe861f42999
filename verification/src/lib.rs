//! A cycle-stepped simulator core for the Series-Q, a fictional 32-bit
//! processor with segmented memory protection, priority-leveled execution,
//! and a cooperatively arbitrated system bus.
//!
//! The crate models the byte-addressed reference memory device, the bus that
//! dispatches accesses to attached regions, the bus-arbitration handshake
//! shared with peripheral channels, the CPU interpreter itself, and two
//! memory-mapped peripherals.  Every operation carries a contract stating its
//! exact effect on the machine state.

pub mod mem;
pub mod bus;
pub mod channel;
pub mod alu;
pub mod cpu;
pub mod step;
pub mod periph;
pub mod laws;
