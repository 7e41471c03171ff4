//! Plain-value models of the Linux kernel mode-setting (KMS) query results,
//! with verified accessors and label tables.
//!
//! The kernel reports display resources (connector ids), connectors (type,
//! connection state, supported modes, properties) and properties (name and
//! counts) through ioctl queries. The raw queries live outside this crate;
//! callers copy the reported fields into the types here as plain values and
//! get verified accessors, pairing and labelling in return.

pub mod connector;
pub mod property;
pub mod resources;

pub use connector::Connection;
pub use connector::Connector;
pub use connector::ModeInfo;
pub use connector::SubPixel;
pub use property::Property;
pub use resources::Resources;
