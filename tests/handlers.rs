use bridge_driver::api::{
    AllocateNetworkRequest, EndpointOperInfoRequest, JoinRequest, OptionValue,
};
use bridge_driver::handlers::{
    handle_allocate_network, handle_endpoint_oper_info, handle_get_capabilities, handle_join,
    plugin_activate,
};
use bridge_driver::lifecycle::{Argument, PluginError};
use bridge_driver::naming::get_endpoint_veth_pair_names;
use bridge_driver::options::{lookup_option, resolve_bridge_name};

fn join_request() -> JoinRequest {
    JoinRequest {
        network_id: "net1".to_string(),
        endpoint_id: "abcdefabcdefabcdef".to_string(),
        sandbox_key: "/var/run/x".to_string(),
        options: Some(vec![("k".to_string(), OptionValue::Text("v".to_string()))]),
    }
}

#[test]
fn naming_uses_first_thirteen_characters() {
    let (host, peer) = get_endpoint_veth_pair_names("0123456789abcdef");
    assert_eq!(host, "v0123456789abc");
    assert_eq!(peer, "V0123456789abc");
}

#[test]
fn naming_is_deterministic_and_distinguishes_ids() {
    assert_eq!(
        get_endpoint_veth_pair_names("abcdefabcdefabcdef"),
        get_endpoint_veth_pair_names("abcdefabcdefabcdef")
    );
    let a = get_endpoint_veth_pair_names("aaaaaaaaaaaaa000");
    let b = get_endpoint_veth_pair_names("aaaaaaaaaaaab000");
    assert_ne!(a.0, b.0);
    assert_ne!(a.1, b.1);
    assert_ne!(a.0, a.1);
}

#[test]
fn naming_of_exactly_thirteen_characters() {
    let (host, peer) = get_endpoint_veth_pair_names("0123456789abc");
    assert_eq!(host, "v0123456789abc");
    assert_eq!(peer, "V0123456789abc");
}

#[test]
fn join_is_pure() {
    let first = handle_join(join_request()).unwrap();
    let second = handle_join(join_request()).unwrap();
    assert_eq!(format!("{:?}", first), format!("{:?}", second));
    assert_eq!(first.interface_name.src_name, "Vabcdefabcdefa");
    assert_eq!(first.gateway, None);
    assert_eq!(first.gateway_ipv6, None);
    assert!(first.static_routes.is_empty());
    assert_eq!(
        first.options,
        Some(vec![("k".to_string(), OptionValue::Text("v".to_string()))])
    );
}

#[test]
fn join_with_short_endpoint_id_fails() {
    let mut request = join_request();
    request.endpoint_id = "abc".to_string();
    let r = handle_join(request);
    assert!(matches!(
        r,
        Err(PluginError::InvalidArgument { argument: Argument::EndpointId, .. })
    ));
}

#[test]
fn capabilities_are_global() {
    let caps = handle_get_capabilities();
    assert_eq!(caps.scope, "global");
    assert_eq!(caps.connectivity_scope, "global");
}

#[test]
fn handshake_names_network_driver() {
    assert_eq!(plugin_activate().implements, vec!["NetworkDriver".to_string()]);
}

#[test]
fn allocate_network_echoes_options() {
    let options = vec![("a".to_string(), OptionValue::Array(vec![OptionValue::Null]))];
    let r = handle_allocate_network(AllocateNetworkRequest {
        network_id: "net1".to_string(),
        ipv4_data: None,
        ipv6_data: None,
        options: Some(options),
    });
    assert_eq!(
        r.options,
        Some(vec![("a".to_string(), OptionValue::Array(vec![OptionValue::Null]))])
    );
}

#[test]
fn oper_info_is_empty() {
    let r = handle_endpoint_oper_info(&EndpointOperInfoRequest {
        network_id: "net1".to_string(),
        endpoint_id: "abcdefabcdefabcdef".to_string(),
    });
    assert!(r.value.is_empty());
}

#[test]
fn lookup_takes_first_matching_entry() {
    let entries = vec![
        ("x".to_string(), OptionValue::Bool(false)),
        ("y".to_string(), OptionValue::Number("1".to_string())),
        ("x".to_string(), OptionValue::Bool(true)),
    ];
    assert_eq!(lookup_option(&entries, &"x".to_string()), Some(&OptionValue::Bool(false)));
    assert_eq!(lookup_option(&entries, &"z".to_string()), None);
}

#[test]
fn resolve_bridge_name_cases() {
    assert_eq!(resolve_bridge_name(&None), Some("florp".to_string()));
    assert_eq!(resolve_bridge_name(&Some(vec![])), Some("florp".to_string()));
    let text = vec![("bridge_name".to_string(), OptionValue::Text("br0".to_string()))];
    assert_eq!(resolve_bridge_name(&Some(text)), Some("br0".to_string()));
    let number = vec![("bridge_name".to_string(), OptionValue::Number("42".to_string()))];
    assert_eq!(resolve_bridge_name(&Some(number)), None);
    let object = vec![("bridge_name".to_string(), OptionValue::Object(vec![]))];
    assert_eq!(resolve_bridge_name(&Some(object)), None);
}
