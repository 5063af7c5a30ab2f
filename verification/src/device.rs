//! A tunnel device: how one is created, and what is asked of the operating
//! system to configure it.
//!
//! Nothing here touches the operating system. Each step hands out a request
//! that says what to ask, and takes the reply to say what it means: the next
//! step, or the failure that ends the attempt.

use vstd::prelude::*;
use crate::address::IpAddress;
use crate::command::{ipv6_command, words, Argument};
use crate::error::NetworkInterfaceError;
use crate::platform::Platform;

verus! {

/// A created tunnel device: the name the operating system gave it, its raw
/// descriptor, and the platform it lives on.
///
/// The name and the descriptor are fixed when the device is created.
#[derive(Debug)]
pub struct TunnelDevice {
    name: String,
    fd: i32,
    platform: Platform,
}

/// The request for a new device.
#[derive(Debug)]
pub struct DeviceCreation {
    platform: Platform,
}

/// The request to read the flags of a new device's descriptor.
#[derive(Debug)]
pub struct FlagsQuery {
    device: TunnelDevice,
}

/// The request to write the flags of a new device's descriptor.
#[derive(Debug)]
pub struct FlagsUpdate {
    device: TunnelDevice,
    flags: i32,
}

/// The request to assign an IPv4 address with the device's native call.
#[derive(Debug, PartialEq, Eq)]
pub struct NativeAssignment {
    pub address: [u8; 4],
}

/// The request to assign an IPv6 address by running an external command and
/// waiting for it to end.
#[derive(Debug, PartialEq, Eq)]
pub struct CommandAssignment {
    /// The argument vector, program first.
    pub argv: Vec<Argument>,
}

/// What is asked of the operating system to assign one address.
#[derive(Debug, PartialEq, Eq)]
pub enum IpAssignment {
    Native(NativeAssignment),
    Command(CommandAssignment),
}

/// The request to enable or disable the interface.
#[derive(Debug, PartialEq, Eq)]
pub struct LinkToggle {
    pub up: bool,
}

/// The flags of a descriptor with the non-blocking bit added: every bit of
/// `flags` stays, and every bit of `nonblocking` is set.
pub fn apply_async_flags(flags: i32, nonblocking: i32) -> (updated: i32)
    ensures
        updated == flags | nonblocking,
{
    flags | nonblocking
}

/// The operations that manage a network interface.
///
/// Each one says what is to be asked of the operating system; none asks it.
pub trait NetworkInterface: Sized {
    /// The request that brings the interface up or down.
    fn set_up(&self, up: bool) -> LinkToggle;

    /// The request that assigns `ip` to the interface.
    fn set_ip(&self, ip: IpAddress) -> IpAssignment;

    /// The name of the interface.
    fn get_name(&self) -> &str;
}

impl TunnelDevice {
    /// The name that the operating system gave the device.
    pub closed spec fn name(&self) -> Seq<char> {
        self.name@
    }

    /// The raw descriptor of the device.
    pub closed spec fn descriptor(&self) -> i32 {
        self.fd
    }

    /// The platform on which the device lives.
    pub closed spec fn platform(&self) -> Platform {
        self.platform
    }

    /// Starts the creation of a device on `platform`.
    ///
    /// The device is there once the three requests of its creation have been
    /// answered: [`DeviceCreation::created`], [`FlagsQuery::read`] and
    /// [`FlagsUpdate::written`].
    pub fn new(platform: Platform) -> (creation: DeviceCreation)
        ensures
            creation.platform() == platform,
    {
        DeviceCreation { platform }
    }

    /// The raw descriptor of the device, which stays with the device.
    pub fn as_raw_fd(&self) -> (fd: i32)
        ensures
            fd == self.descriptor(),
    {
        self.fd
    }

    /// Gives up the device for its raw descriptor: from here on the caller
    /// answers for releasing it.
    pub fn into_raw_fd(self) -> (fd: i32)
        ensures
            fd == self.descriptor(),
    {
        self.fd
    }
}

impl NetworkInterface for TunnelDevice {
    fn set_up(&self, up: bool) -> (request: LinkToggle)
        ensures
            request.up == up,
    {
        LinkToggle { up }
    }

    /// An IPv4 address goes to the device's native call, and no command is
    /// run. An IPv6 address is assigned by the platform's command, run once
    /// with the device's name.
    fn set_ip(&self, ip: IpAddress) -> (request: IpAssignment)
        ensures
            match ip {
                IpAddress::V4(octets) => request == IpAssignment::Native(
                    NativeAssignment { address: octets },
                ),
                IpAddress::V6(segments) => {
                    &&& request matches IpAssignment::Command(command)
                    &&& words(command.argv@) == ipv6_command(
                        self.platform(),
                        self.name(),
                        segments,
                    )
                },
            },
    {
        match ip {
            IpAddress::V4(octets) => IpAssignment::Native(NativeAssignment { address: octets }),
            IpAddress::V6(segments) => IpAssignment::Command(
                CommandAssignment {
                    argv: self.platform.ipv6_command(self.name.as_str(), segments),
                },
            ),
        }
    }

    fn get_name(&self) -> (name: &str)
        ensures
            name@ == self.name(),
    {
        self.name.as_str()
    }
}

impl DeviceCreation {
    /// The platform on which the device is requested.
    pub closed spec fn platform(&self) -> Platform {
        self.platform
    }

    /// Whether the request asks for packet-metadata framing.
    pub fn packet_information(&self) -> (wanted: bool)
        ensures
            wanted == (self.platform() == Platform::Linux),
    {
        self.platform.packet_information()
    }

    /// Takes the reply to the request: the name and the raw descriptor of the
    /// new device, or why there is none.
    ///
    /// With a device, its descriptor's flags are to be read next. Without
    /// one, the attempt ends with [`NetworkInterfaceError::CreateDevice`].
    pub fn created(self, reply: Result<(String, i32), tun::Error>) -> (next: Result<
        FlagsQuery,
        NetworkInterfaceError,
    >)
        ensures
            match reply {
                Ok((name, fd)) => {
                    &&& next matches Ok(query)
                    &&& query.device().name() == name@
                    &&& query.device().descriptor() == fd
                    &&& query.device().platform() == self.platform()
                },
                Err(cause) => next == Err::<FlagsQuery, _>(
                    NetworkInterfaceError::CreateDevice(cause),
                ),
            },
    {
        match reply {
            Ok((name, fd)) => Ok(
                FlagsQuery { device: TunnelDevice { name, fd, platform: self.platform } },
            ),
            Err(cause) => Err(NetworkInterfaceError::CreateDevice(cause)),
        }
    }
}

impl FlagsQuery {
    /// The device whose descriptor is being configured.
    pub closed spec fn device(&self) -> TunnelDevice {
        self.device
    }

    /// The descriptor whose flags are to be read.
    pub fn fd(&self) -> (fd: i32)
        ensures
            fd == self.device().descriptor(),
    {
        self.device.fd
    }

    /// Takes the reply to the request: the descriptor's current flags, or why
    /// they could not be read. `nonblocking` is the platform's non-blocking
    /// bit.
    ///
    /// With the flags, they are to be written back next with the
    /// non-blocking bit added. Without them, the attempt ends with
    /// [`NetworkInterfaceError::SetDeviceAsync`].
    pub fn read(self, reply: Result<i32, nix::errno::Errno>, nonblocking: i32) -> (next: Result<
        FlagsUpdate,
        NetworkInterfaceError,
    >)
        ensures
            match reply {
                Ok(flags) => {
                    &&& next matches Ok(update)
                    &&& update.device() == self.device()
                    &&& update.flags() == flags | nonblocking
                },
                Err(cause) => next == Err::<FlagsUpdate, _>(
                    NetworkInterfaceError::SetDeviceAsync(cause),
                ),
            },
    {
        match reply {
            Ok(flags) => Ok(
                FlagsUpdate { device: self.device, flags: apply_async_flags(flags, nonblocking) },
            ),
            Err(cause) => Err(NetworkInterfaceError::SetDeviceAsync(cause)),
        }
    }
}

impl FlagsUpdate {
    /// The device whose descriptor is being configured.
    pub closed spec fn device(&self) -> TunnelDevice {
        self.device
    }

    /// The flags that are to be written.
    pub closed spec fn flags(&self) -> i32 {
        self.flags
    }

    /// The descriptor whose flags are to be written.
    pub fn fd(&self) -> (fd: i32)
        ensures
            fd == self.device().descriptor(),
    {
        self.device.fd
    }

    /// The flags to write.
    pub fn new_flags(&self) -> (flags: i32)
        ensures
            flags == self.flags(),
    {
        self.flags
    }

    /// Takes the reply to the request: what the call returned, or why the
    /// flags could not be written.
    ///
    /// Once they are written the device is ready. Otherwise the attempt ends
    /// with [`NetworkInterfaceError::SetDeviceAsync`].
    pub fn written(self, reply: Result<i32, nix::errno::Errno>) -> (device: Result<
        TunnelDevice,
        NetworkInterfaceError,
    >)
        ensures
            match reply {
                Ok(_) => device == Ok::<_, NetworkInterfaceError>(self.device()),
                Err(cause) => device == Err::<TunnelDevice, _>(
                    NetworkInterfaceError::SetDeviceAsync(cause),
                ),
            },
    {
        match reply {
            Ok(_) => Ok(self.device),
            Err(cause) => Err(NetworkInterfaceError::SetDeviceAsync(cause)),
        }
    }
}

impl NativeAssignment {
    /// Takes the reply to the request. A failure is
    /// [`NetworkInterfaceError::SetIpv4`].
    pub fn completed(self, reply: Result<(), tun::Error>) -> (outcome: Result<
        (),
        NetworkInterfaceError,
    >)
        ensures
            outcome == match reply {
                Ok(_) => Ok::<(), NetworkInterfaceError>(()),
                Err(cause) => Err(NetworkInterfaceError::SetIpv4(cause)),
            },
    {
        match reply {
            Ok(_) => Ok(()),
            Err(cause) => Err(NetworkInterfaceError::SetIpv4(cause)),
        }
    }
}

impl CommandAssignment {
    /// Takes the reply to the request: whether the command ran and ended
    /// with success. A failure is [`NetworkInterfaceError::SetIpv6`].
    pub fn completed(self, reply: Result<(), std::io::Error>) -> (outcome: Result<
        (),
        NetworkInterfaceError,
    >)
        ensures
            outcome == match reply {
                Ok(_) => Ok::<(), NetworkInterfaceError>(()),
                Err(cause) => Err(NetworkInterfaceError::SetIpv6(cause)),
            },
    {
        match reply {
            Ok(_) => Ok(()),
            Err(cause) => Err(NetworkInterfaceError::SetIpv6(cause)),
        }
    }
}

impl LinkToggle {
    /// Takes the reply to the request. A failure is
    /// [`NetworkInterfaceError::ToggleDevice`].
    pub fn completed(self, reply: Result<(), tun::Error>) -> (outcome: Result<
        (),
        NetworkInterfaceError,
    >)
        ensures
            outcome == match reply {
                Ok(_) => Ok::<(), NetworkInterfaceError>(()),
                Err(cause) => Err(NetworkInterfaceError::ToggleDevice(cause)),
            },
    {
        match reply {
            Ok(_) => Ok(()),
            Err(cause) => Err(NetworkInterfaceError::ToggleDevice(cause)),
        }
    }
}

} // verus!
