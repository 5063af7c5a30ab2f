use nix::errno::Errno;
use talpid_tunnel::address::IpAddress;
use talpid_tunnel::config::TunConfig;
use talpid_tunnel::device::{NetworkInterface, TunnelDevice};
use talpid_tunnel::error::{NetworkInterfaceError, OpenTunError};
use talpid_tunnel::platform::Platform;
use talpid_tunnel::provider::{OpenRequest, OpenStep, UnixTunProvider};

const A1: IpAddress = IpAddress::V4([10, 0, 0, 1]);
const A2: IpAddress = IpAddress::V6([0xfc00, 0, 0, 0, 0, 0, 0, 2]);
const A3: IpAddress = IpAddress::V4([10, 0, 0, 3]);

fn created(name: &str, fd: i32) -> TunnelDevice {
    let query = TunnelDevice::new(Platform::Linux)
        .created(Ok((name.to_owned(), fd)))
        .expect("a created device");
    let update = query.read(Ok(0o2), 0o4000).expect("flags that were read");
    update.written(Ok(0)).expect("flags that were written")
}

fn provider(addresses: Vec<IpAddress>) -> UnixTunProvider {
    UnixTunProvider::new(TunConfig { addresses })
}

/// Carries the requests out by taking their outcomes from `outcomes`, and
/// returns the requests that were made with where the opening then stood.
fn drive<'a>(
    mut step: OpenStep<'a>,
    outcomes: Vec<Result<(), NetworkInterfaceError>>,
) -> (Vec<OpenRequest>, OpenStep<'a>) {
    let mut requests = Vec::new();
    for outcome in outcomes {
        step = match step {
            OpenStep::Pending(opening) => {
                requests.push(opening.request());
                opening.advance(outcome)
            }
            done => return (requests, done),
        };
    }
    (requests, step)
}

#[test]
fn empty_config_sets_the_device_up_and_assigns_nothing() {
    let provider = provider(vec![]);
    let (requests, end) = drive(provider.open_tun(Ok(created("tun0", 3))), vec![Ok(())]);
    assert_eq!(requests, vec![OpenRequest::SetUp(true)]);
    match end {
        OpenStep::Opened(tun) => assert_eq!(tun.interface_name(), "tun0"),
        other => panic!("unexpected end: {:?}", other),
    }
}

#[test]
fn addresses_are_assigned_in_the_configured_order() {
    let provider = provider(vec![A1, A2, A3]);
    let (requests, end) = drive(
        provider.open_tun(Ok(created("tun0", 3))),
        vec![Ok(()), Ok(()), Ok(()), Ok(())],
    );
    assert_eq!(
        requests,
        vec![
            OpenRequest::SetIp(A1),
            OpenRequest::SetIp(A2),
            OpenRequest::SetIp(A3),
            OpenRequest::SetUp(true),
        ]
    );
    assert!(matches!(end, OpenStep::Opened(_)));
}

#[test]
fn failure_of_the_second_address_ends_the_opening() {
    let provider = provider(vec![A1, A2, A3]);
    let failure = NetworkInterfaceError::SetIpv6(std::io::Error::from_raw_os_error(1));
    let (requests, end) = drive(
        provider.open_tun(Ok(created("tun0", 3))),
        vec![Ok(()), Err(failure), Ok(()), Ok(())],
    );
    assert_eq!(requests, vec![OpenRequest::SetIp(A1), OpenRequest::SetIp(A2)]);
    match end {
        OpenStep::Failed(OpenTunError::SetIpAddr(address, NetworkInterfaceError::SetIpv6(cause))) => {
            assert_eq!(address, A2);
            assert_eq!(cause.raw_os_error(), Some(1));
        }
        other => panic!("unexpected end: {:?}", other),
    }
}

#[test]
fn failure_of_the_first_address_names_it() {
    let provider = provider(vec![A1, A2]);
    let failure = NetworkInterfaceError::SetIpv4(tun::Error::InvalidAddress);
    let (requests, end) = drive(provider.open_tun(Ok(created("tun0", 3))), vec![Err(failure)]);
    assert_eq!(requests, vec![OpenRequest::SetIp(A1)]);
    assert!(matches!(
        end,
        OpenStep::Failed(OpenTunError::SetIpAddr(
            IpAddress::V4([10, 0, 0, 1]),
            NetworkInterfaceError::SetIpv4(tun::Error::InvalidAddress)
        ))
    ));
}

#[test]
fn failed_set_up_is_reported_after_every_address() {
    let provider = provider(vec![A1, A2]);
    let failure = NetworkInterfaceError::ToggleDevice(tun::Error::InvalidDescriptor);
    let (requests, end) = drive(
        provider.open_tun(Ok(created("tun0", 3))),
        vec![Ok(()), Ok(()), Err(failure)],
    );
    assert_eq!(
        requests,
        vec![OpenRequest::SetIp(A1), OpenRequest::SetIp(A2), OpenRequest::SetUp(true)]
    );
    assert!(matches!(
        end,
        OpenStep::Failed(OpenTunError::SetUp(NetworkInterfaceError::ToggleDevice(
            tun::Error::InvalidDescriptor
        )))
    ));
}

#[test]
fn failed_creation_asks_nothing_of_a_device() {
    let provider = provider(vec![A1, A2, A3]);
    let failure = NetworkInterfaceError::CreateDevice(tun::Error::NameTooLong);
    let (requests, end) = drive(provider.open_tun(Err(failure)), vec![Ok(()), Ok(()), Ok(())]);
    assert_eq!(requests, vec![]);
    assert!(matches!(
        end,
        OpenStep::Failed(OpenTunError::CreateTunnelDevice(NetworkInterfaceError::CreateDevice(
            tun::Error::NameTooLong
        )))
    ));
}

#[test]
fn descriptor_that_cannot_be_made_nonblocking_fails_the_creation() {
    let query = TunnelDevice::new(Platform::Linux)
        .created(Ok(("tun0".to_owned(), 3)))
        .expect("a created device");
    let created = query.read(Err(Errno::EBADF), 0o4000).and_then(|update| update.written(Ok(0)));
    let provider = provider(vec![A1]);
    let (requests, end) = drive(provider.open_tun(created), vec![Ok(()), Ok(())]);
    assert_eq!(requests, vec![]);
    assert!(matches!(
        end,
        OpenStep::Failed(OpenTunError::CreateTunnelDevice(
            NetworkInterfaceError::SetDeviceAsync(Errno::EBADF)
        ))
    ));
}

#[test]
fn opening_waits_for_the_outcome_of_its_request() {
    let provider = provider(vec![A1]);
    let (requests, end) = drive(provider.open_tun(Ok(created("tun0", 3))), vec![Ok(())]);
    assert_eq!(requests, vec![OpenRequest::SetIp(A1)]);
    match end {
        OpenStep::Pending(opening) => {
            assert_eq!(opening.request(), OpenRequest::SetUp(true));
            assert_eq!(opening.request(), OpenRequest::SetUp(true));
            assert_eq!(opening.device().get_name(), "tun0");
        }
        other => panic!("unexpected end: {:?}", other),
    }
}

#[test]
fn interface_name_is_the_name_of_the_created_device() {
    let provider = provider(vec![A1]);
    let (_, end) = drive(
        provider.open_tun(Ok(created("tun12", 9))),
        vec![Ok(()), Ok(())],
    );
    match end {
        OpenStep::Opened(tun) => {
            assert_eq!(tun.interface_name(), "tun12");
            assert_eq!(tun.interface_name(), "tun12");
            assert_eq!(tun.interface_name(), tun.get_name());
            assert_eq!(tun.as_raw_fd(), 9);
        }
        other => panic!("unexpected end: {:?}", other),
    }
}

#[test]
fn open_tunnel_hands_out_the_requests_of_its_device() {
    let provider = provider(vec![]);
    let (_, end) = drive(provider.open_tun(Ok(created("tun0", 3))), vec![Ok(())]);
    match end {
        OpenStep::Opened(tun) => {
            assert!(tun.set_up(false) == tun.set_up(false));
            assert!(!tun.set_up(false).up);
            assert_eq!(
                tun.set_ip(A1),
                created("tun0", 3).set_ip(A1),
            );
        }
        other => panic!("unexpected end: {:?}", other),
    }
}

#[test]
fn config_can_be_edited_between_openings() {
    let mut provider = provider(vec![A1]);
    provider.config_mut().addresses.push(A2);
    provider.config_mut().addresses.push(A3);
    assert_eq!(provider.config_mut().addresses, vec![A1, A2, A3]);
    let (requests, _) = drive(
        provider.open_tun(Ok(created("tun0", 3))),
        vec![Ok(()), Ok(()), Ok(()), Ok(())],
    );
    assert_eq!(
        requests,
        vec![
            OpenRequest::SetIp(A1),
            OpenRequest::SetIp(A2),
            OpenRequest::SetIp(A3),
            OpenRequest::SetUp(true),
        ]
    );
}

#[test]
fn editing_the_config_leaves_an_open_tunnel_as_it_is() {
    let mut provider = provider(vec![A1, A2]);
    let (first_requests, end) = drive(
        provider.open_tun(Ok(created("tun0", 3))),
        vec![Ok(()), Ok(()), Ok(())],
    );
    let tun = match end {
        OpenStep::Opened(tun) => tun,
        other => panic!("unexpected end: {:?}", other),
    };

    provider.config_mut().addresses.clear();
    provider.config_mut().addresses.push(A3);

    assert_eq!(tun.interface_name(), "tun0");
    assert_eq!(tun.as_raw_fd(), 3);
    assert_eq!(
        first_requests,
        vec![OpenRequest::SetIp(A1), OpenRequest::SetIp(A2), OpenRequest::SetUp(true)]
    );

    let (second_requests, _) = drive(
        provider.open_tun(Ok(created("tun1", 4))),
        vec![Ok(()), Ok(())],
    );
    assert_eq!(second_requests, vec![OpenRequest::SetIp(A3), OpenRequest::SetUp(true)]);
    assert_eq!(tun.interface_name(), "tun0");
}
