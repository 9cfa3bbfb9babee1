//! Wake-on-LAN: parsing a target's MAC address, deriving the broadcast
//! address of its subnet, assembling the magic packet and deciding how it is
//! sent. Everything here is pure; sockets and the command line live with the
//! caller.

pub mod packet;
pub mod mac;
pub mod subnet;
pub mod validate;
pub mod report;
pub mod transmit;
