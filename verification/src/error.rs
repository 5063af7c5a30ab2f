//! The two tiers of failure: which device operation failed, and in which
//! phase of opening a tunnel.

use vstd::prelude::*;
use crate::address::IpAddress;

verus! {

/// `tun::Error`, the failure of a call into the platform device subsystem.
/// Nothing is known of its contents: it is carried as a cause.
#[verifier::external_type_specification]
#[verifier::external_body]
pub struct ExTunError(tun::Error);

/// `nix::errno::Errno` (also named `nix::Error`), the failure of a descriptor
/// flag call. Nothing is known of its contents: it is carried as a cause.
#[verifier::external_type_specification]
#[verifier::external_body]
pub struct ExErrno(nix::errno::Errno);

/// `std::io::Error`, the failure of an external command. Nothing is known of
/// its contents: it is carried as a cause.
#[verifier::external_type_specification]
#[verifier::external_body]
pub struct ExIoError(std::io::Error);

/// Which operation on a tunnel interface failed, with its cause.
#[derive(Debug)]
pub enum NetworkInterfaceError {
    /// The native call that sets an IPv4 address failed.
    SetIpv4(tun::Error),
    /// The external command that sets an IPv6 address could not be started
    /// or ended with a failure.
    SetIpv6(std::io::Error),
    /// No device could be created.
    CreateDevice(tun::Error),
    /// The device exists, but its descriptor could not be made non-blocking.
    SetDeviceAsync(nix::errno::Errno),
    /// The interface could not be enabled or disabled.
    ToggleDevice(tun::Error),
}

/// Which phase of opening a tunnel failed.
#[derive(Debug)]
pub enum OpenTunError {
    /// The tunnel device could not be created.
    CreateTunnelDevice(NetworkInterfaceError),
    /// The given address could not be assigned to the device.
    SetIpAddr(IpAddress, NetworkInterfaceError),
    /// The device could not be set up.
    SetUp(NetworkInterfaceError),
}

} // verus!
