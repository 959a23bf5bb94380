use crate::api::{JoinRequest, JoinResponse};
use crate::handlers::join_answers;
use crate::lifecycle::{op_of, succeeded, transition, DeviceOutcome, Pending, PluginError, Step};
use crate::naming::{host_device_name, peer_device_name, valid_endpoint_id, ENDPOINT_ID_PREFIX_LEN};
use crate::registry::NetworkView;
use vstd::prelude::*;

verus! {

/// Endpoint naming is deterministic: one id always gives one pair of names.
/// Two ids that differ within their first characters give different host
/// names and different peer names, and no host name is a peer name.
pub proof fn lemma_endpoint_naming(a: Seq<char>, b: Seq<char>)
    requires
        valid_endpoint_id(a),
        valid_endpoint_id(b),
    ensures
        a == b ==> host_device_name(a) == host_device_name(b) && peer_device_name(a)
            == peer_device_name(b),
        a.subrange(0, ENDPOINT_ID_PREFIX_LEN as int) != b.subrange(0, ENDPOINT_ID_PREFIX_LEN as int)
            ==> host_device_name(a) != host_device_name(b) && peer_device_name(a)
            != peer_device_name(b),
        host_device_name(a) != peer_device_name(b),
{
    let n = ENDPOINT_ID_PREFIX_LEN as int;
    assert(host_device_name(a).subrange(1, n + 1) =~= a.subrange(0, n));
    assert(host_device_name(b).subrange(1, n + 1) =~= b.subrange(0, n));
    assert(peer_device_name(a).subrange(1, n + 1) =~= a.subrange(0, n));
    assert(peer_device_name(b).subrange(1, n + 1) =~= b.subrange(0, n));
    assert(host_device_name(a)[0] == 'v');
    assert(peer_device_name(b)[0] == 'V');
}

/// Joining is pure: two answers to one request agree in every field, so
/// they encode to the same bytes.
pub proof fn lemma_join_deterministic(request: JoinRequest, r1: JoinResponse, r2: JoinResponse)
    requires
        join_answers(request, r1),
        join_answers(request, r2),
    ensures
        r1.interface_name.src_name@ == r2.interface_name.src_name@,
        r1.interface_name.dst_prefix@ == r2.interface_name.dst_prefix@,
        r1.gateway == r2.gateway,
        r1.gateway_ipv6 == r2.gateway_ipv6,
        r1.sandbox_key == r2.sandbox_key,
        r1.options == r2.options,
        r1.static_routes@ == r2.static_routes@,
        r1.disable_gateway_service == r2.disable_gateway_service,
{
    assert(r1.static_routes@ =~= r2.static_routes@);
}

/// A failed device operation ends its request with `DeviceOperationFailed`
/// and leaves the registry as it was.
pub proof fn lemma_failure_leaves_registry(
    state: Map<Seq<char>, NetworkView>,
    pending: Pending,
    outcome: DeviceOutcome,
)
    requires
        !succeeded(op_of(pending), outcome),
    ensures
        transition(state, pending, outcome).0 == state,
        transition(state, pending, outcome).1 matches Step::Finished(
            Err(PluginError::DeviceOperationFailed { .. }),
        ),
{
}

/// A network is registered only once: a creation whose id was taken while
/// its bridge was being made ends with `Conflict` and changes no record.
pub proof fn lemma_registration_unique(
    state: Map<Seq<char>, NetworkView>,
    pending: Pending,
    outcome: DeviceOutcome,
)
    requires
        pending is BridgeLookup,
        state.contains_key(pending->BridgeLookup_network_id@),
    ensures
        transition(state, pending, outcome).0 == state,
        transition(state, pending, outcome).1 matches Step::Finished(
            Err(PluginError::Conflict { .. }) | Err(PluginError::DeviceOperationFailed { .. }),
        ),
{
}

} // verus!
