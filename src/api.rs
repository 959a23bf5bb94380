use std::collections::HashMap;
use vstd::prelude::*;

verus! {

/// A JSON value as it may appear in a request's `Options` map.
///
/// Numbers are kept as their decimal text, so that an echoed value is
/// handed back exactly as it came in.
#[derive(Debug, PartialEq, Eq)]
pub enum OptionValue {
    Null,
    Bool(bool),
    Number(String),
    Text(String),
    Array(Vec<OptionValue>),
    Object(Vec<(String, OptionValue)>),
}

/// The `Options` map of a request: keys in the order they were received.
pub type OptionMap = Vec<(String, OptionValue)>;

/// IP address management data of one address pool.
#[derive(Debug)]
pub struct IpamData {
    pub address_space: String,
    pub pool: String,
    pub gateway: String,
    pub aux_addresses: Option<HashMap<String, String>>,
}

/// The interface that the runtime moves into a container's sandbox.
#[derive(Debug)]
pub struct InterfaceName {
    /// The name of the device created on the host.
    pub src_name: String,
    /// Prefix of the device's name inside the container; "eth" becomes eth0, eth1, ...
    pub dst_prefix: String,
}

/// A route installed in a container's sandbox.
#[derive(Debug)]
pub struct StaticRoute {
    pub destination: String,
    /// 0 for a route through `next_hop`, 1 for a connected route.
    pub route_type: i32,
    pub next_hop: Option<String>,
}

#[derive(Debug)]
pub struct HandshakeResponse {
    pub implements: Vec<String>,
}

#[derive(Debug)]
pub struct Capabilities {
    pub scope: String,
    pub connectivity_scope: String,
}

#[derive(Debug)]
pub struct AllocateNetworkRequest {
    pub network_id: String,
    pub ipv4_data: Option<Vec<IpamData>>,
    pub ipv6_data: Option<Vec<IpamData>>,
    pub options: Option<OptionMap>,
}

#[derive(Debug)]
pub struct AllocateNetworkResponse {
    pub options: Option<OptionMap>,
}

#[derive(Debug)]
pub struct FreeNetworkRequest {
    pub network_id: String,
}

#[derive(Debug)]
pub struct CreateNetworkRequest {
    pub network_id: String,
    pub ipv4_data: Option<Vec<IpamData>>,
    pub ipv6_data: Option<Vec<IpamData>>,
    pub options: Option<OptionMap>,
}

#[derive(Debug)]
pub struct DeleteNetworkRequest {
    pub network_id: String,
}

#[derive(Debug)]
pub struct EndpointInterfaceInfo {
    pub address: String,
    pub address_ipv6: String,
    pub mac_address: String,
}

#[derive(Debug)]
pub struct CreateEndpointRequest {
    pub network_id: String,
    pub endpoint_id: String,
    pub options: Option<OptionMap>,
    pub interface: Option<EndpointInterfaceInfo>,
}

#[derive(Debug)]
pub struct CreateEndpointResponse {
    pub interface: Option<EndpointInterfaceInfo>,
}

#[derive(Debug)]
pub struct EndpointOperInfoRequest {
    pub network_id: String,
    pub endpoint_id: String,
}

#[derive(Debug)]
pub struct EndpointOperInfoResponse {
    pub value: HashMap<String, String>,
}

#[derive(Debug)]
pub struct DeleteEndpointRequest {
    pub network_id: String,
    pub endpoint_id: String,
}

#[derive(Debug)]
pub struct JoinRequest {
    pub network_id: String,
    pub endpoint_id: String,
    pub sandbox_key: String,
    pub options: Option<OptionMap>,
}

#[derive(Debug)]
pub struct JoinResponse {
    pub interface_name: InterfaceName,
    pub gateway: Option<String>,
    pub gateway_ipv6: Option<String>,
    pub sandbox_key: String,
    pub options: Option<OptionMap>,
    pub static_routes: Vec<StaticRoute>,
    pub disable_gateway_service: bool,
}

#[derive(Debug)]
pub struct LeaveRequest {
    pub network_id: String,
    pub endpoint_id: String,
}

} // verus!
