//! What a tunnel device is configured with.

use vstd::prelude::*;
use crate::address::IpAddress;

verus! {

/// The configuration of a tunnel device.
#[derive(Debug)]
pub struct TunConfig {
    /// The addresses to assign to the device, in the order in which they are
    /// assigned.
    pub addresses: Vec<IpAddress>,
}

} // verus!
