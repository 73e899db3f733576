//! Device-side USB controller driver, modelled and verified.
//!
//! The crate models a memory-mapped USB device controller: a typed
//! register block with hardware-defined access modes, a fixed table of
//! per-endpoint buffer descriptors, and the controller lifecycle state
//! machine (`Reset` / `Idle` / `Active`) with its per-endpoint protocol
//! sub-states. Every register write is recorded in a ghost log, so the
//! contracts can state exactly which writes each operation issues.

pub mod driver;
pub mod endpoint;
pub mod registers;
pub mod state;
