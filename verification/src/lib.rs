//! A presence beacon: which local addresses are announced, what the
//! announcement says, which datagrams each channel sends, and how one beacon
//! cycle follows another.

pub mod addr;
pub mod text;
pub mod scan;
pub mod announce;
pub mod config;
pub mod transmit;
pub mod beacon;
pub mod roundtrip;
