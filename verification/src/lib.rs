//! Enumeration of the network interfaces configured on the local host.
//!
//! The platform adapter (outside this library) obtains the raw interface
//! records from the operating system and hands them over as plain values;
//! everything that decides what ends up in the result — address decoding,
//! byte-order handling, link-local filtering, record assembly and the
//! buffer-sizing protocol — lives here and is verified.

pub mod addr;
pub mod decode;
pub mod laws;
pub mod name;
pub mod posix;
pub mod sizing;
pub mod windows;

pub use addr::IfAddr;
pub use addr::IpAddress;
pub use addr::Ipv4Address;
pub use addr::Ipv6Address;
