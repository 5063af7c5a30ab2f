//! Opening a tunnel: a device is created, given each configured address in
//! turn, and set up. The first failure ends the attempt.

use vstd::prelude::*;
use crate::address::IpAddress;
use crate::config::TunConfig;
use crate::device::{NetworkInterface, TunnelDevice};
use crate::error::{NetworkInterfaceError, OpenTunError};

verus! {

/// What is asked of a device while a tunnel is opened.
#[derive(Clone, Copy, Debug, PartialEq, Eq)]
pub enum OpenRequest {
    /// Assign this address.
    SetIp(IpAddress),
    /// Bring the interface up or down.
    SetUp(bool),
}

/// A tunnel that is being opened, in specifications: the device, the
/// addresses it is to get, and how many of them it has.
pub struct Opening {
    pub device: TunnelDevice,
    pub addresses: Seq<IpAddress>,
    pub assigned: nat,
}

/// How far the opening of a tunnel has come, in specifications.
pub enum Progress {
    /// A request is to be carried out.
    Pending(Opening),
    /// The tunnel is open, on this device.
    Opened(TunnelDevice),
    /// The attempt has ended.
    Failed(OpenTunError),
}

impl Opening {
    /// The request that is to be carried out next: the first address that is
    /// not assigned yet, or, when none is left, setting the device up.
    pub open spec fn request(self) -> OpenRequest {
        if self.assigned < self.addresses.len() {
            OpenRequest::SetIp(self.addresses[self.assigned as int])
        } else {
            OpenRequest::SetUp(true)
        }
    }

    /// What follows from the outcome of the request.
    ///
    /// A failure ends the attempt, and names the address that was being
    /// assigned if one was. A success leads to the next request, or, when
    /// the device was set up, to the open tunnel.
    pub open spec fn advance(self, outcome: Result<(), NetworkInterfaceError>) -> Progress {
        match outcome {
            Ok(_) => if self.assigned < self.addresses.len() {
                Progress::Pending(Opening { assigned: self.assigned + 1, ..self })
            } else {
                Progress::Opened(self.device)
            },
            Err(cause) => if self.assigned < self.addresses.len() {
                Progress::Failed(
                    OpenTunError::SetIpAddr(self.addresses[self.assigned as int], cause),
                )
            } else {
                Progress::Failed(OpenTunError::SetUp(cause))
            },
        }
    }
}

/// Where the opening of a tunnel starts, given how the creation of its
/// device ended: with a device, at the first address; without one, at the
/// failure.
pub open spec fn begin(
    addresses: Seq<IpAddress>,
    created: Result<TunnelDevice, NetworkInterfaceError>,
) -> Progress {
    match created {
        Ok(device) => Progress::Pending(Opening { device, addresses, assigned: 0 }),
        Err(cause) => Progress::Failed(OpenTunError::CreateTunnelDevice(cause)),
    }
}

/// Factory of tunnel devices on Unix systems.
#[derive(Debug)]
pub struct UnixTunProvider {
    config: TunConfig,
}

/// An open tunnel.
#[derive(Debug)]
pub struct UnixTun(TunnelDevice);

/// A tunnel that is being opened: its device exists, and a request is to be
/// carried out on it.
#[derive(Debug)]
pub struct TunOpening<'a> {
    device: TunnelDevice,
    addresses: &'a Vec<IpAddress>,
    assigned: usize,
}

/// How far the opening of a tunnel has come.
#[derive(Debug)]
pub enum OpenStep<'a> {
    /// A request is to be carried out.
    Pending(TunOpening<'a>),
    /// The tunnel is open.
    Opened(UnixTun),
    /// The attempt has ended.
    Failed(OpenTunError),
}

impl UnixTun {
    /// The device of the tunnel.
    pub closed spec fn device(&self) -> TunnelDevice {
        self.0
    }

    /// Retrieve the tunnel interface name.
    pub fn interface_name(&self) -> (name: &str)
        ensures
            name@ == self.device().name(),
    {
        self.0.get_name()
    }
}

impl std::ops::Deref for UnixTun {
    type Target = TunnelDevice;

    /// The device of the tunnel, for reading.
    fn deref(&self) -> (device: &TunnelDevice)
        ensures
            *device == self.device(),
    {
        &self.0
    }
}

impl<'a> View for TunOpening<'a> {
    type V = Opening;

    closed spec fn view(&self) -> Opening {
        Opening { device: self.device, addresses: self.addresses@, assigned: self.assigned as nat }
    }
}

impl<'a> View for OpenStep<'a> {
    type V = Progress;

    open spec fn view(&self) -> Progress {
        match self {
            OpenStep::Pending(opening) => Progress::Pending(opening@),
            OpenStep::Opened(tun) => Progress::Opened(tun.device()),
            OpenStep::Failed(error) => Progress::Failed(*error),
        }
    }
}

impl<'a> TunOpening<'a> {
    #[verifier::type_invariant]
    spec fn in_range(self) -> bool {
        self.assigned <= self.addresses.len()
    }

    /// The request that is to be carried out now.
    pub fn request(&self) -> (request: OpenRequest)
        ensures
            request == self@.request(),
    {
        proof {
            use_type_invariant(self);
        }
        if self.assigned < self.addresses.len() {
            OpenRequest::SetIp(self.addresses[self.assigned])
        } else {
            OpenRequest::SetUp(true)
        }
    }

    /// The device on which the request is to be carried out.
    pub fn device(&self) -> (device: &TunnelDevice)
        ensures
            *device == self@.device,
    {
        &self.device
    }

    /// Takes the outcome of the request and says what follows.
    pub fn advance(self, outcome: Result<(), NetworkInterfaceError>) -> (step: OpenStep<'a>)
        ensures
            step@ == self@.advance(outcome),
    {
        proof {
            use_type_invariant(&self);
        }
        let more = self.assigned < self.addresses.len();
        match outcome {
            Ok(_) => if more {
                OpenStep::Pending(
                    TunOpening {
                        device: self.device,
                        addresses: self.addresses,
                        assigned: self.assigned + 1,
                    },
                )
            } else {
                OpenStep::Opened(UnixTun(self.device))
            },
            Err(cause) => if more {
                OpenStep::Failed(OpenTunError::SetIpAddr(self.addresses[self.assigned], cause))
            } else {
                OpenStep::Failed(OpenTunError::SetUp(cause))
            },
        }
    }
}

impl UnixTunProvider {
    /// The configuration that the next tunnel is opened with.
    pub closed spec fn config(&self) -> TunConfig {
        self.config
    }

    /// A provider that opens tunnels with `config`.
    pub fn new(config: TunConfig) -> (provider: Self)
        ensures
            provider.config() == config,
    {
        UnixTunProvider { config }
    }

    /// Get the current tunnel config. Note that the tunnel must be recreated
    /// for any changes to take effect.
    pub fn config_mut(&mut self) -> (config: &mut TunConfig)
        ensures
            *config == old(self).config(),
            final(self).config() == *final(config),
    {
        &mut self.config
    }

    /// Open a tunnel using the current tunnel config, given how the creation
    /// of its device ended.
    ///
    /// Without a device nothing is asked, and the attempt has failed with
    /// [`OpenTunError::CreateTunnelDevice`]. With one, the first request is
    /// pending.
    pub fn open_tun(&self, created: Result<TunnelDevice, NetworkInterfaceError>) -> (step:
        OpenStep<'_>)
        ensures
            step@ == begin(self.config().addresses@, created),
    {
        match created {
            Ok(device) => OpenStep::Pending(
                TunOpening { device, addresses: &self.config.addresses, assigned: 0 },
            ),
            Err(cause) => OpenStep::Failed(OpenTunError::CreateTunnelDevice(cause)),
        }
    }
}

} // verus!
