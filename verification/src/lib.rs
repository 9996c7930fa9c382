//! Translation engine of a bridge between PJLink clients and a projector that
//! is driven over a serial line.

pub mod bootstrap;
pub mod bytes;
pub mod connector;
pub mod connector_link;
pub mod dictionary;
pub mod rs232_bridge;
pub mod rs232_bridge_def;
