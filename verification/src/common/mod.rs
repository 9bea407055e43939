//! Building blocks shared by the device models: a bounded FIFO, a 32-bit
//! register with bit fields, and common configuration and status bits.
pub mod config;
pub mod fifo;
pub mod reg32;
pub mod status;

pub use fifo::Fifo;
pub use reg32::Reg32;
