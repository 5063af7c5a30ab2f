//! IP addresses as plain values.

use vstd::prelude::*;

verus! {

/// An IP address of either family.
///
/// An IPv4 address is held as its four octets, an IPv6 address as its eight
/// 16-bit segments, both in the order in which they are written.
#[derive(Clone, Copy, Debug, PartialEq, Eq)]
pub enum IpAddress {
    V4([u8; 4]),
    V6([u16; 8]),
}

} // verus!
