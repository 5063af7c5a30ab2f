//! The Unix variants on which a tunnel device can be brought up.

use vstd::prelude::*;

verus! {

/// The operating system whose conventions the device follows.
///
/// It decides how a device is requested and which external command assigns
/// an IPv6 address.
#[derive(Clone, Copy, Debug, PartialEq, Eq, Structural)]
pub enum Platform {
    Linux,
    MacOs,
}

impl Platform {
    /// Whether packet-metadata framing is requested when a device is created.
    ///
    /// Only Linux asks for it.
    pub fn packet_information(self) -> (wanted: bool)
        ensures
            wanted == (self == Platform::Linux),
    {
        match self {
            Platform::Linux => true,
            Platform::MacOs => false,
        }
    }
}

} // verus!
