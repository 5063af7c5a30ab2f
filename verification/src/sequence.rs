//! The order of what is asked of a device while a tunnel is opened, over
//! whole runs: which requests are carried out, and how the attempt ends.

use vstd::prelude::*;
use crate::address::IpAddress;
use crate::device::TunnelDevice;
use crate::error::{NetworkInterfaceError, OpenTunError};
use crate::provider::{begin, OpenRequest, Opening, Progress};

verus! {

/// What a run of requests came to: the requests that were carried out, in
/// order, and where the opening stood afterwards.
pub struct Trace {
    pub requests: Seq<OpenRequest>,
    pub end: Progress,
}

/// Runs an opening against the outcomes of its requests, first to last.
///
/// While a request is pending and an outcome is left, the request is carried
/// out and the outcome decides what follows. Once the tunnel is open or the
/// attempt has failed, nothing more is carried out.
pub open spec fn run(progress: Progress, outcomes: Seq<Result<(), NetworkInterfaceError>>) -> Trace
    decreases outcomes.len(),
{
    match progress {
        Progress::Pending(opening) => if outcomes.len() > 0 {
            let rest = run(opening.advance(outcomes[0]), outcomes.skip(1));
            Trace { requests: seq![opening.request()] + rest.requests, end: rest.end }
        } else {
            Trace { requests: Seq::empty(), end: progress }
        },
        _ => Trace { requests: Seq::empty(), end: progress },
    }
}

/// Every request of an opening that meets no failure: each address in its
/// order, then setting the device up.
pub open spec fn plan(addresses: Seq<IpAddress>) -> Seq<OpenRequest> {
    addresses.map_values(|address: IpAddress| OpenRequest::SetIp(address)).push(
        OpenRequest::SetUp(true),
    )
}

/// The failure of the request at position `at` of the plan: that of an
/// address names the address, that of setting the device up comes last.
pub open spec fn failure(addresses: Seq<IpAddress>, at: int, cause: NetworkInterfaceError)
    -> OpenTunError {
    if at < addresses.len() {
        OpenTunError::SetIpAddr(addresses[at], cause)
    } else {
        OpenTunError::SetUp(cause)
    }
}

proof fn lemma_run_to_failure(
    opening: Opening,
    outcomes: Seq<Result<(), NetworkInterfaceError>>,
    failed: int,
)
    requires
        0 <= failed < outcomes.len(),
        opening.assigned + failed <= opening.addresses.len(),
        outcomes[failed] is Err,
        forall|i: int| 0 <= i < failed ==> outcomes[i] is Ok,
    ensures
        run(Progress::Pending(opening), outcomes).requests == plan(opening.addresses).subrange(
            opening.assigned as int,
            opening.assigned + failed + 1,
        ),
        run(Progress::Pending(opening), outcomes).end == Progress::Failed(
            failure(opening.addresses, opening.assigned + failed, outcomes[failed]->Err_0),
        ),
    decreases failed,
{
    let all = plan(opening.addresses);
    let from = opening.assigned as int;
    let rest = outcomes.skip(1);
    assert(all[from] == opening.request());
    if failed == 0 {
        assert(run(opening.advance(outcomes[0]), rest).requests == Seq::<OpenRequest>::empty());
        assert(seq![opening.request()] + Seq::<OpenRequest>::empty() =~= all.subrange(
            from,
            from + 1,
        ));
    } else {
        let next = Opening { assigned: opening.assigned + 1, ..opening };
        assert(opening.advance(outcomes[0]) == Progress::Pending(next));
        assert(rest[failed - 1] == outcomes[failed]);
        assert forall|i: int| 0 <= i < failed - 1 implies rest[i] is Ok by {
            assert(rest[i] == outcomes[i + 1]);
        }
        lemma_run_to_failure(next, rest, failed - 1);
        assert(seq![opening.request()] + all.subrange(from + 1, from + failed + 1)
            =~= all.subrange(from, from + failed + 1));
    }
}

proof fn lemma_run_to_tunnel(opening: Opening, outcomes: Seq<Result<(), NetworkInterfaceError>>)
    requires
        opening.assigned <= opening.addresses.len(),
        run(Progress::Pending(opening), outcomes).end is Opened,
    ensures
        run(Progress::Pending(opening), outcomes).requests == plan(opening.addresses).subrange(
            opening.assigned as int,
            opening.addresses.len() + 1 as int,
        ),
        run(Progress::Pending(opening), outcomes).end == Progress::Opened(opening.device),
        outcomes.len() > opening.addresses.len() - opening.assigned,
        forall|i: int| 0 <= i <= opening.addresses.len() - opening.assigned ==> outcomes[i] is Ok,
    decreases outcomes.len(),
{
    let all = plan(opening.addresses);
    let from = opening.assigned as int;
    let rest = outcomes.skip(1);
    assert(all[from] == opening.request());
    if opening.assigned < opening.addresses.len() {
        let next = Opening { assigned: opening.assigned + 1, ..opening };
        assert(opening.advance(outcomes[0]) == Progress::Pending(next));
        lemma_run_to_tunnel(next, rest);
        assert forall|i: int| 0 <= i <= opening.addresses.len() - opening.assigned implies outcomes[i] is Ok by {
            if i > 0 {
                assert(rest[i - 1] == outcomes[i]);
            }
        }
        assert(seq![opening.request()] + all.subrange(from + 1, all.len() as int)
            =~= all.subrange(from, all.len() as int));
    } else {
        assert(run(opening.advance(outcomes[0]), rest).requests == Seq::<OpenRequest>::empty());
        assert(seq![opening.request()] + Seq::<OpenRequest>::empty() =~= all.subrange(
            from,
            from + 1,
        ));
    }
}

proof fn lemma_run_without_failure(
    opening: Opening,
    outcomes: Seq<Result<(), NetworkInterfaceError>>,
)
    requires
        opening.assigned <= opening.addresses.len(),
        outcomes.len() > opening.addresses.len() - opening.assigned,
        forall|i: int| 0 <= i <= opening.addresses.len() - opening.assigned ==> outcomes[i] is Ok,
    ensures
        run(Progress::Pending(opening), outcomes).end == Progress::Opened(opening.device),
    decreases opening.addresses.len() - opening.assigned,
{
    let rest = outcomes.skip(1);
    assert(outcomes[0] is Ok);
    if opening.assigned < opening.addresses.len() {
        let next = Opening { assigned: opening.assigned + 1, ..opening };
        assert(opening.advance(outcomes[0]) == Progress::Pending(next));
        assert forall|i: int| 0 <= i <= next.addresses.len() - next.assigned implies rest[i] is Ok by {
            assert(rest[i] == outcomes[i + 1]);
        }
        lemma_run_without_failure(next, rest);
    }
}

/// When the creation of the device fails, nothing is asked of any device:
/// neither an address nor setting up. The attempt has failed with
/// [`OpenTunError::CreateTunnelDevice`] and the cause of the creation's
/// failure, whatever outcomes are offered.
pub proof fn lemma_no_device_no_request(
    addresses: Seq<IpAddress>,
    cause: NetworkInterfaceError,
    outcomes: Seq<Result<(), NetworkInterfaceError>>,
)
    ensures
        run(begin(addresses, Err(cause)), outcomes).requests == Seq::<OpenRequest>::empty(),
        run(begin(addresses, Err(cause)), outcomes).end == Progress::Failed(
            OpenTunError::CreateTunnelDevice(cause),
        ),
{
}

/// The first failure ends the attempt. When the requests before position
/// `failed` of the plan succeed and that one fails, the requests carried out
/// are the plan up to and including it, in the plan's order: no address after
/// it is tried, and the device is set up only if every address was assigned.
/// The error names the address that failed, or is [`OpenTunError::SetUp`]
/// when setting up failed, and carries the cause.
pub proof fn lemma_first_failure_ends_opening(
    addresses: Seq<IpAddress>,
    device: TunnelDevice,
    outcomes: Seq<Result<(), NetworkInterfaceError>>,
    failed: int,
)
    requires
        0 <= failed < outcomes.len(),
        failed <= addresses.len(),
        outcomes[failed] is Err,
        forall|i: int| 0 <= i < failed ==> outcomes[i] is Ok,
    ensures
        run(begin(addresses, Ok(device)), outcomes).requests == plan(addresses).take(failed + 1),
        run(begin(addresses, Ok(device)), outcomes).end == Progress::Failed(
            failure(addresses, failed, outcomes[failed]->Err_0),
        ),
{
    lemma_run_to_failure(Opening { device, addresses, assigned: 0 }, outcomes, failed);
}

/// A tunnel is opened only by the whole plan. When a run ends with an open
/// tunnel, every address was assigned in the configured order, then the
/// device was set up, each request once and with success, and the tunnel is
/// on the device that was created.
pub proof fn lemma_opened_by_whole_plan(
    addresses: Seq<IpAddress>,
    device: TunnelDevice,
    outcomes: Seq<Result<(), NetworkInterfaceError>>,
)
    requires
        run(begin(addresses, Ok(device)), outcomes).end is Opened,
    ensures
        run(begin(addresses, Ok(device)), outcomes).requests == plan(addresses),
        run(begin(addresses, Ok(device)), outcomes).end == Progress::Opened(device),
        outcomes.len() > addresses.len(),
        forall|i: int| 0 <= i <= addresses.len() ==> outcomes[i] is Ok,
{
    lemma_run_to_tunnel(Opening { device, addresses, assigned: 0 }, outcomes);
    assert(plan(addresses).subrange(0, addresses.len() + 1 as int) =~= plan(addresses));
}

/// When every request of the plan succeeds, the tunnel is opened on the
/// device that was created, and the requests carried out are the whole plan:
/// each configured address in its order, then setting the device up.
/// Outcomes that are offered beyond the plan are not used.
pub proof fn lemma_whole_plan_opens(
    addresses: Seq<IpAddress>,
    device: TunnelDevice,
    outcomes: Seq<Result<(), NetworkInterfaceError>>,
)
    requires
        outcomes.len() > addresses.len(),
        forall|i: int| 0 <= i <= addresses.len() ==> outcomes[i] is Ok,
    ensures
        run(begin(addresses, Ok(device)), outcomes).requests == plan(addresses),
        run(begin(addresses, Ok(device)), outcomes).end == Progress::Opened(device),
{
    lemma_run_without_failure(Opening { device, addresses, assigned: 0 }, outcomes);
    lemma_opened_by_whole_plan(addresses, device, outcomes);
}

/// With no address configured, no address is assigned: the one request that
/// is carried out sets the device up, and its outcome decides between the
/// open tunnel and [`OpenTunError::SetUp`].
pub proof fn lemma_no_address_no_assignment(
    device: TunnelDevice,
    outcomes: Seq<Result<(), NetworkInterfaceError>>,
)
    requires
        outcomes.len() > 0,
    ensures
        run(begin(Seq::empty(), Ok(device)), outcomes).requests == seq![OpenRequest::SetUp(true)],
        run(begin(Seq::empty(), Ok(device)), outcomes).end == match outcomes[0] {
            Ok(_) => Progress::Opened(device),
            Err(cause) => Progress::Failed(OpenTunError::SetUp(cause)),
        },
{
    let addresses = Seq::<IpAddress>::empty();
    assert(plan(addresses) =~= seq![OpenRequest::SetUp(true)]);
    match outcomes[0] {
        Ok(_) => {
            lemma_whole_plan_opens(addresses, device, outcomes);
        },
        Err(_) => {
            lemma_first_failure_ends_opening(addresses, device, outcomes, 0);
            assert(plan(addresses).take(1) =~= plan(addresses));
        },
    }
}

} // verus!
