use crate::api::{
    AllocateNetworkRequest, AllocateNetworkResponse, Capabilities, EndpointOperInfoRequest,
    EndpointOperInfoResponse, HandshakeResponse, InterfaceName, JoinRequest, JoinResponse,
};
use crate::lifecycle::{Argument, PluginError};
use crate::naming::{get_endpoint_veth_pair_names, peer_device_name, valid_endpoint_id, ENDPOINT_ID_PREFIX_LEN};
use std::collections::HashMap;
use vstd::prelude::*;
use vstd::string::{StrSliceExecFns, StringExecFns};

verus! {

/// The plugin interface this driver implements.
pub open spec fn network_driver_interface() -> Seq<char> {
    "NetworkDriver"@
}

/// The scope this driver declares for its networks and their connectivity.
pub open spec fn global_scope() -> Seq<char> {
    "global"@
}

/// Prefix of the interface names inside a container.
pub open spec fn container_interface_prefix() -> Seq<char> {
    "eth"@
}

/// Answers the activation handshake: the driver implements the network
/// driver interface.
pub fn plugin_activate() -> (r: HandshakeResponse)
    ensures
        r.implements@.len() == 1,
        r.implements@[0]@ == network_driver_interface(),
{
    proof {
        reveal_strlit("NetworkDriver");
    }
    let mut implements: Vec<String> = Vec::new();
    implements.push(String::from_str("NetworkDriver"));
    HandshakeResponse { implements }
}

pub fn handle_get_capabilities() -> (r: Capabilities)
    ensures
        r.scope@ == global_scope(),
        r.connectivity_scope@ == global_scope(),
{
    proof {
        reveal_strlit("global");
    }
    Capabilities { scope: String::from_str("global"), connectivity_scope: String::from_str("global") }
}

/// Allocation needs nothing of this driver: the options are echoed.
pub fn handle_allocate_network(request: AllocateNetworkRequest) -> (r: AllocateNetworkResponse)
    ensures
        r.options == request.options,
{
    AllocateNetworkResponse { options: request.options }
}

/// No statistics are kept: the answer is empty.
pub fn handle_endpoint_oper_info(request: &EndpointOperInfoRequest) -> (r: EndpointOperInfoResponse)
    ensures
        r.value@ == Map::<String, String>::empty(),
{
    EndpointOperInfoResponse { value: HashMap::new() }
}

/// What `handle_join` answers to `request`.
pub open spec fn join_answers(request: JoinRequest, r: JoinResponse) -> bool {
    &&& r.interface_name.src_name@ == peer_device_name(request.endpoint_id@)
    &&& r.interface_name.dst_prefix@ == container_interface_prefix()
    &&& r.gateway is None
    &&& r.gateway_ipv6 is None
    &&& r.sandbox_key == request.sandbox_key
    &&& r.options == request.options
    &&& r.static_routes@.len() == 0
    &&& !r.disable_gateway_service
}

/// Names the endpoint's peer device as the interface the sandbox adopts.
/// Changes no device and no registry entry.
pub fn handle_join(request: JoinRequest) -> (r: Result<JoinResponse, PluginError>)
    ensures
        valid_endpoint_id(request.endpoint_id@) ==> (r matches Ok(response) && join_answers(
            request,
            response,
        )),
        !valid_endpoint_id(request.endpoint_id@) ==> r == Err::<JoinResponse, PluginError>(
            PluginError::InvalidArgument {
                network_id: request.network_id,
                argument: Argument::EndpointId,
            },
        ),
{
    if request.endpoint_id.as_str().unicode_len() < ENDPOINT_ID_PREFIX_LEN {
        return Err(
            PluginError::InvalidArgument {
                network_id: request.network_id,
                argument: Argument::EndpointId,
            },
        );
    }
    let (_host_name, peer_name) = get_endpoint_veth_pair_names(request.endpoint_id.as_str());
    proof {
        reveal_strlit("eth");
    }
    Ok(
        JoinResponse {
            interface_name: InterfaceName { src_name: peer_name, dst_prefix: String::from_str("eth") },
            gateway: None,
            gateway_ipv6: None,
            sandbox_key: request.sandbox_key,
            options: request.options,
            static_routes: Vec::new(),
            disable_gateway_service: false,
        },
    )
}

} // verus!
