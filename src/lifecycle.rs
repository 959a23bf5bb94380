use crate::api::{CreateEndpointRequest, CreateNetworkRequest, DeleteEndpointRequest, DeleteNetworkRequest};
use crate::naming::{get_endpoint_veth_pair_names, host_device_name, peer_device_name, valid_endpoint_id, ENDPOINT_ID_PREFIX_LEN};
use crate::options::{requested_bridge_name, resolve_bridge_name};
use crate::registry::{new_network_view, AppState, Network, NetworkView};
use vstd::prelude::*;
use vstd::string::StrSliceExecFns;

verus! {

/// One operation on the kernel's network-device table.
#[derive(Debug, PartialEq, Eq)]
pub enum DeviceOp {
    CreateBridge { name: String },
    GetIndexByName { name: String },
    SetUp { index: u32 },
    CreateVethPair { host_name: String, peer_name: String },
    /// Make device `index` a port of the bridge `master_index`.
    Attach { index: u32, master_index: u32 },
    Delete { index: u32 },
}

/// What came of a device operation.
#[derive(Debug, PartialEq, Eq)]
pub enum DeviceOutcome {
    /// The operation was carried out.
    Completed,
    /// A lookup by name found the device with this index.
    Found(u32),
    /// A lookup by name found no device.
    Missing,
    /// The kernel refused the operation, with its message.
    Failed(String),
}

/// A request argument that was rejected.
#[derive(Debug, PartialEq, Eq)]
pub enum Argument {
    /// The `bridge_name` option is not a string.
    BridgeName,
    /// The endpoint id is too short to name devices after.
    EndpointId,
}

#[derive(Debug, PartialEq, Eq)]
pub enum PluginError {
    /// A network with this id already exists.
    Conflict { network_id: String },
    /// No network with this id exists.
    NotFound { network_id: String },
    InvalidArgument { network_id: String, argument: Argument },
    /// A device operation failed; `reason` is the kernel's message, or
    /// `None` where a lookup found no device.
    DeviceOperationFailed { network_id: String, op: DeviceOp, reason: Option<String> },
}

/// A request that waits for the outcome of one device operation.
#[derive(Debug, PartialEq, Eq)]
pub enum Pending {
    BridgeCreation { network_id: String, bridge_name: String },
    BridgeLookup { network_id: String, bridge_name: String },
    BridgeActivation { network_id: String, bridge_index: u32 },
    BridgeRemoval { network_id: String, bridge_index: u32 },
    VethCreation { network_id: String, host_name: String, peer_name: String, bridge_index: u32 },
    VethLookup { network_id: String, host_name: String, bridge_index: u32 },
    VethAttachment { network_id: String, host_index: u32, bridge_index: u32 },
    VethActivation { network_id: String, host_index: u32 },
}

/// What a handler asks for next: a device operation, or the request's result.
#[derive(Debug, PartialEq, Eq)]
pub enum Step {
    /// Perform `pending.device_op()` and hand its outcome to `resume`.
    Perform(Pending),
    Finished(Result<(), PluginError>),
}

/// The device operation that a pending request waits for.
pub open spec fn op_of(pending: Pending) -> DeviceOp {
    match pending {
        Pending::BridgeCreation { bridge_name, .. } => DeviceOp::CreateBridge { name: bridge_name },
        Pending::BridgeLookup { bridge_name, .. } => DeviceOp::GetIndexByName { name: bridge_name },
        Pending::BridgeActivation { bridge_index, .. } => DeviceOp::SetUp { index: bridge_index },
        Pending::BridgeRemoval { bridge_index, .. } => DeviceOp::Delete { index: bridge_index },
        Pending::VethCreation { host_name, peer_name, .. } => DeviceOp::CreateVethPair {
            host_name,
            peer_name,
        },
        Pending::VethLookup { host_name, .. } => DeviceOp::GetIndexByName { name: host_name },
        Pending::VethAttachment { host_index, bridge_index, .. } => DeviceOp::Attach {
            index: host_index,
            master_index: bridge_index,
        },
        Pending::VethActivation { host_index, .. } => DeviceOp::SetUp { index: host_index },
    }
}

/// The network that a pending request is about.
pub open spec fn network_of(pending: Pending) -> String {
    match pending {
        Pending::BridgeCreation { network_id, .. } => network_id,
        Pending::BridgeLookup { network_id, .. } => network_id,
        Pending::BridgeActivation { network_id, .. } => network_id,
        Pending::BridgeRemoval { network_id, .. } => network_id,
        Pending::VethCreation { network_id, .. } => network_id,
        Pending::VethLookup { network_id, .. } => network_id,
        Pending::VethAttachment { network_id, .. } => network_id,
        Pending::VethActivation { network_id, .. } => network_id,
    }
}

/// Whether `outcome` reports success of `op`: a lookup succeeds only when
/// it found the device; any other operation unless the kernel refused it.
pub open spec fn succeeded(op: DeviceOp, outcome: DeviceOutcome) -> bool {
    match op {
        DeviceOp::GetIndexByName { .. } => outcome is Found,
        _ => !(outcome is Failed),
    }
}

pub open spec fn failure_reason(outcome: DeviceOutcome) -> Option<String> {
    match outcome {
        DeviceOutcome::Failed(message) => Some(message),
        _ => None,
    }
}

/// The registry and the next step after `pending` received `outcome`.
///
/// A failed operation ends the request and leaves the registry as it is:
/// a network is registered once its bridge has an index, before the bridge
/// is brought up, and unregistered only once its bridge is deleted.
pub open spec fn transition(
    state: Map<Seq<char>, NetworkView>,
    pending: Pending,
    outcome: DeviceOutcome,
) -> (Map<Seq<char>, NetworkView>, Step) {
    if !succeeded(op_of(pending), outcome) {
        (
            state,
            Step::Finished(
                Err(
                    PluginError::DeviceOperationFailed {
                        network_id: network_of(pending),
                        op: op_of(pending),
                        reason: failure_reason(outcome),
                    },
                ),
            ),
        )
    } else {
        match pending {
            Pending::BridgeCreation { network_id, bridge_name } => (
                state,
                Step::Perform(Pending::BridgeLookup { network_id, bridge_name }),
            ),
            Pending::BridgeLookup { network_id, bridge_name } => {
                let index = outcome->Found_0;
                if state.contains_key(network_id@) {
                    (state, Step::Finished(Err(PluginError::Conflict { network_id })))
                } else {
                    (
                        state.insert(network_id@, new_network_view(bridge_name@, index)),
                        Step::Perform(Pending::BridgeActivation { network_id, bridge_index: index }),
                    )
                }
            },
            Pending::BridgeActivation { .. } => (state, Step::Finished(Ok(()))),
            Pending::BridgeRemoval { network_id, .. } => (
                state.remove(network_id@),
                Step::Finished(Ok(())),
            ),
            Pending::VethCreation { network_id, host_name, bridge_index, .. } => (
                state,
                Step::Perform(Pending::VethLookup { network_id, host_name, bridge_index }),
            ),
            Pending::VethLookup { network_id, bridge_index, .. } => (
                state,
                Step::Perform(
                    Pending::VethAttachment {
                        network_id,
                        host_index: outcome->Found_0,
                        bridge_index,
                    },
                ),
            ),
            Pending::VethAttachment { network_id, host_index, .. } => (
                state,
                Step::Perform(Pending::VethActivation { network_id, host_index }),
            ),
            Pending::VethActivation { .. } => (state, Step::Finished(Ok(()))),
        }
    }
}

impl Pending {
    /// The device operation this request waits for.
    pub fn device_op(&self) -> (r: DeviceOp)
        ensures
            r == op_of(*self),
    {
        match self {
            Pending::BridgeCreation { bridge_name, .. } => DeviceOp::CreateBridge {
                name: bridge_name.clone(),
            },
            Pending::BridgeLookup { bridge_name, .. } => DeviceOp::GetIndexByName {
                name: bridge_name.clone(),
            },
            Pending::BridgeActivation { bridge_index, .. } => DeviceOp::SetUp {
                index: *bridge_index,
            },
            Pending::BridgeRemoval { bridge_index, .. } => DeviceOp::Delete {
                index: *bridge_index,
            },
            Pending::VethCreation { host_name, peer_name, .. } => DeviceOp::CreateVethPair {
                host_name: host_name.clone(),
                peer_name: peer_name.clone(),
            },
            Pending::VethLookup { host_name, .. } => DeviceOp::GetIndexByName {
                name: host_name.clone(),
            },
            Pending::VethAttachment { host_index, bridge_index, .. } => DeviceOp::Attach {
                index: *host_index,
                master_index: *bridge_index,
            },
            Pending::VethActivation { host_index, .. } => DeviceOp::SetUp { index: *host_index },
        }
    }

    /// The network this request is about.
    pub fn network_id(&self) -> (r: &String)
        ensures
            *r == network_of(*self),
    {
        match self {
            Pending::BridgeCreation { network_id, .. } => network_id,
            Pending::BridgeLookup { network_id, .. } => network_id,
            Pending::BridgeActivation { network_id, .. } => network_id,
            Pending::BridgeRemoval { network_id, .. } => network_id,
            Pending::VethCreation { network_id, .. } => network_id,
            Pending::VethLookup { network_id, .. } => network_id,
            Pending::VethAttachment { network_id, .. } => network_id,
            Pending::VethActivation { network_id, .. } => network_id,
        }
    }
}

/// Starts creating a network: rejects a taken id and a non-string
/// `bridge_name`, else asks for the bridge to be created.
pub fn handle_create_network(state: &AppState, request: CreateNetworkRequest) -> (r: Step)
    requires
        state.wf(),
    ensures
        state@.contains_key(request.network_id@) ==> r == Step::Finished(
            Err(PluginError::Conflict { network_id: request.network_id }),
        ),
        !state@.contains_key(request.network_id@) && requested_bridge_name(request.options) is None
            ==> r == Step::Finished(
            Err(
                PluginError::InvalidArgument {
                    network_id: request.network_id,
                    argument: Argument::BridgeName,
                },
            ),
        ),
        !state@.contains_key(request.network_id@) && requested_bridge_name(request.options) is Some
            ==> (r matches Step::Perform(Pending::BridgeCreation { network_id, bridge_name })
            && network_id == request.network_id && requested_bridge_name(request.options) == Some(
            bridge_name@,
        )),
{
    if state.contains_network(&request.network_id) {
        return Step::Finished(Err(PluginError::Conflict { network_id: request.network_id }));
    }
    match resolve_bridge_name(&request.options) {
        None => Step::Finished(
            Err(
                PluginError::InvalidArgument {
                    network_id: request.network_id,
                    argument: Argument::BridgeName,
                },
            ),
        ),
        Some(bridge_name) => Step::Perform(
            Pending::BridgeCreation { network_id: request.network_id, bridge_name },
        ),
    }
}

/// Starts deleting a network: rejects an unknown id, else asks for its
/// bridge to be deleted.
pub fn handle_delete_network(state: &AppState, request: DeleteNetworkRequest) -> (r: Step)
    requires
        state.wf(),
    ensures
        !state@.contains_key(request.network_id@) ==> r == Step::Finished(
            Err(PluginError::NotFound { network_id: request.network_id }),
        ),
        state@.contains_key(request.network_id@) ==> r == Step::Perform(
            Pending::BridgeRemoval {
                network_id: request.network_id,
                bridge_index: state@[request.network_id@].bridge_index,
            },
        ),
{
    match state.get_network(&request.network_id) {
        None => Step::Finished(Err(PluginError::NotFound { network_id: request.network_id })),
        Some(network) => Step::Perform(
            Pending::BridgeRemoval {
                network_id: request.network_id,
                bridge_index: network.bridge_index,
            },
        ),
    }
}

/// Starts creating an endpoint: rejects an unknown network and an endpoint
/// id too short to name devices after, else asks for its veth pair.
pub fn handle_create_endpoint(state: &AppState, request: CreateEndpointRequest) -> (r: Step)
    requires
        state.wf(),
    ensures
        !state@.contains_key(request.network_id@) ==> r == Step::Finished(
            Err(PluginError::NotFound { network_id: request.network_id }),
        ),
        state@.contains_key(request.network_id@) && !valid_endpoint_id(request.endpoint_id@)
            ==> r == Step::Finished(
            Err(
                PluginError::InvalidArgument {
                    network_id: request.network_id,
                    argument: Argument::EndpointId,
                },
            ),
        ),
        state@.contains_key(request.network_id@) && valid_endpoint_id(request.endpoint_id@)
            ==> (r matches Step::Perform(
            Pending::VethCreation { network_id, host_name, peer_name, bridge_index },
        ) && network_id == request.network_id && host_name@ == host_device_name(
            request.endpoint_id@,
        ) && peer_name@ == peer_device_name(request.endpoint_id@) && bridge_index
            == state@[request.network_id@].bridge_index),
{
    let bridge_index = match state.get_network(&request.network_id) {
        None => {
            return Step::Finished(Err(PluginError::NotFound { network_id: request.network_id }));
        },
        Some(network) => network.bridge_index,
    };
    if request.endpoint_id.as_str().unicode_len() < ENDPOINT_ID_PREFIX_LEN {
        return Step::Finished(
            Err(
                PluginError::InvalidArgument {
                    network_id: request.network_id,
                    argument: Argument::EndpointId,
                },
            ),
        );
    }
    let (host_name, peer_name) = get_endpoint_veth_pair_names(request.endpoint_id.as_str());
    Step::Perform(
        Pending::VethCreation { network_id: request.network_id, host_name, peer_name, bridge_index },
    )
}

/// Deletes an endpoint: rejects an unknown network, and changes no device.
pub fn handle_delete_endpoint(state: &AppState, request: &DeleteEndpointRequest) -> (r: Result<
    (),
    PluginError,
>)
    requires
        state.wf(),
    ensures
        !state@.contains_key(request.network_id@) ==> r == Err::<(), PluginError>(
            PluginError::NotFound { network_id: request.network_id },
        ),
        state@.contains_key(request.network_id@) ==> r is Ok,
{
    if state.contains_network(&request.network_id) {
        Ok(())
    } else {
        Err(PluginError::NotFound { network_id: request.network_id.clone() })
    }
}

/// Takes the outcome of the device operation that `pending` waited for, and
/// updates the registry and gives the next step as `transition` says.
pub fn resume(state: &mut AppState, pending: Pending, outcome: DeviceOutcome) -> (r: Step)
    requires
        old(state).wf(),
    ensures
        final(state).wf(),
        (final(state)@, r) == transition(old(state)@, pending, outcome),
{
    let op = pending.device_op();
    let ok = match (&op, &outcome) {
        (DeviceOp::GetIndexByName { .. }, DeviceOutcome::Found(_)) => true,
        (DeviceOp::GetIndexByName { .. }, _) => false,
        (_, DeviceOutcome::Failed(_)) => false,
        _ => true,
    };
    if !ok {
        let network_id = pending.network_id().clone();
        let reason = match outcome {
            DeviceOutcome::Failed(message) => Some(message),
            _ => None,
        };
        return Step::Finished(
            Err(PluginError::DeviceOperationFailed { network_id, op, reason }),
        );
    }
    let found: u32 = match outcome {
        DeviceOutcome::Found(index) => index,
        _ => 0,
    };
    match pending {
        Pending::BridgeCreation { network_id, bridge_name } => Step::Perform(
            Pending::BridgeLookup { network_id, bridge_name },
        ),
        Pending::BridgeLookup { network_id, bridge_name } => {
            if state.contains_network(&network_id) {
                Step::Finished(Err(PluginError::Conflict { network_id }))
            } else {
                let key = network_id.clone();
                state.insert_network(key, Network::new(bridge_name, found));
                Step::Perform(Pending::BridgeActivation { network_id, bridge_index: found })
            }
        },
        Pending::BridgeActivation { .. } => Step::Finished(Ok(())),
        Pending::BridgeRemoval { network_id, .. } => {
            state.remove_network(&network_id);
            Step::Finished(Ok(()))
        },
        Pending::VethCreation { network_id, host_name, bridge_index, .. } => Step::Perform(
            Pending::VethLookup { network_id, host_name, bridge_index },
        ),
        Pending::VethLookup { network_id, bridge_index, .. } => Step::Perform(
            Pending::VethAttachment { network_id, host_index: found, bridge_index },
        ),
        Pending::VethAttachment { network_id, host_index, .. } => Step::Perform(
            Pending::VethActivation { network_id, host_index },
        ),
        Pending::VethActivation { .. } => Step::Finished(Ok(())),
    }
}

} // verus!
