//! EtherIP-over-IPv6 tunnel: the per-packet encapsulation and decapsulation
//! transforms, the configuration tables they read, and the resolution of that
//! configuration from snapshots of the host's address, link and neighbor tables.
pub mod datapath;
pub mod packet;
pub mod resolver;
pub mod tables;
pub mod wire;
