use net_route::config::{ResolvedRouteConfig, parse_config_to_repeat_and_add_routes};
use net_route::error::ErrorKind;
use net_route::interface::{InterfaceKind, RawAdapter, adapter_info_from, ipv4_addresses};
use net_route::route::{IpAddress, Route, RouteTable, make_host_route};

fn v4(a: u8, b: u8, c: u8, d: u8) -> IpAddress {
    IpAddress::V4(a, b, c, d)
}

fn adapters() -> Vec<net_route::interface::AdapterInfo> {
    vec![adapter_info_from(
        RawAdapter {
            friendly_name: "eth".to_string(),
            ipv6_if_index: 2,
            physical_address: None,
            ip_addresses: vec![v4(192, 168, 1, 20)],
            gateways: vec![v4(192, 168, 1, 1)],
            if_type: InterfaceKind::EthernetCsmacd,
        },
        &vec![],
    )]
}

#[test]
fn domain_entry_without_conflict() {
    let entries = vec![ResolvedRouteConfig { ifindex: 2, addresses: vec![v4(93, 184, 216, 34)] }];
    let table = RouteTable::new(vec![make_host_route(v4(1, 1, 1, 1), 2, v4(192, 168, 1, 1))]);
    let plan = parse_config_to_repeat_and_add_routes(&table, &entries, &adapters()).unwrap();
    assert!(plan.conflicts.is_empty());
    assert_eq!(plan.additions, vec![make_host_route(v4(93, 184, 216, 34), 2, v4(192, 168, 1, 1))]);
}

#[test]
fn conflicts_are_live_host_routes_to_document_addresses() {
    let a = make_host_route(v4(1, 1, 1, 1), 9, v4(10, 0, 0, 1));
    let b = make_host_route(v4(2, 2, 2, 2), 9, v4(10, 0, 0, 1));
    let wide = Route::new(v4(1, 1, 1, 1), 24).ifindex(9);
    let c = make_host_route(v4(3, 3, 3, 3), 9, v4(10, 0, 0, 1));
    let table = RouteTable::new(vec![a, b, wide, c]);
    let entries = vec![
        ResolvedRouteConfig { ifindex: 2, addresses: vec![v4(3, 3, 3, 3)] },
        ResolvedRouteConfig { ifindex: 2, addresses: vec![v4(1, 1, 1, 1), v4(3, 3, 3, 3)] },
    ];
    let plan = parse_config_to_repeat_and_add_routes(&table, &entries, &adapters()).unwrap();
    assert_eq!(plan.conflicts, vec![a, c]);
    assert_eq!(plan.additions.len(), 3);
    assert_eq!(plan.additions[2].destination, v4(3, 3, 3, 3));
}

#[test]
fn entry_with_unknown_interface_fails() {
    let entries = vec![
        ResolvedRouteConfig { ifindex: 2, addresses: vec![v4(1, 1, 1, 1)] },
        ResolvedRouteConfig { ifindex: 5, addresses: vec![v4(2, 2, 2, 2)] },
    ];
    let table = RouteTable::new(vec![]);
    let err = parse_config_to_repeat_and_add_routes(&table, &entries, &adapters()).unwrap_err();
    assert_eq!(err.kind, ErrorKind::AdapterNotFound);
}

#[test]
fn resolved_addresses_keep_ipv4_only() {
    let got = ipv4_addresses(&vec![IpAddress::V6(7), v4(93, 184, 216, 34), IpAddress::V6(8)]);
    assert_eq!(got, vec![v4(93, 184, 216, 34)]);
}
