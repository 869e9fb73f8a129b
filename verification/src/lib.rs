//! Codec for the Distributed Interactive Simulation (DIS) wire protocol,
//! protocol versions 6 and 7: byte-accurate parsing and serialization of the
//! PDU header and a family of PDU bodies, with proved round-trip and length
//! properties.

pub mod appearance;
pub mod builder;
pub mod bytes;
pub mod entity_state;
pub mod enumerations;
pub mod errors;
pub mod fire;
pub mod header;
pub mod pdu;
pub mod records;
pub mod siman;

pub use pdu::parse;
pub use pdu::parse_as_version;
pub use pdu::parse_v6_pdus;
pub use pdu::parse_v7_pdus;
pub use header::parse_header;
