use net_route::route::{IpAddress, Route, RouteTable, make_host_route, parse_page_info};

fn v4(a: u8, b: u8, c: u8, d: u8) -> IpAddress {
    IpAddress::V4(a, b, c, d)
}

fn table_of(n: u8) -> RouteTable {
    let mut routes = Vec::new();
    for i in 0..n {
        routes.push(make_host_route(v4(10, 0, 0, i), 1, v4(192, 168, 1, 1)));
    }
    RouteTable::new(routes)
}

#[test]
fn page_beyond_end_clamps_to_last_page() {
    let table = table_of(25);
    let page = table.list_routes(10, 99);
    assert_eq!(page.info.total, 25);
    assert_eq!(page.info.total_pages, 3);
    assert_eq!(page.info.page, 3);
    assert_eq!(page.items.len(), 5);
    assert_eq!(page.items[0].destination, v4(10, 0, 0, 20));
    assert_eq!(page.items[4].destination, v4(10, 0, 0, 24));
}

#[test]
fn first_page_is_full() {
    let table = table_of(25);
    let page = table.list_routes(10, 1);
    assert_eq!(page.info.page, 1);
    assert_eq!(page.items.len(), 10);
    assert_eq!(page.items[9].destination, v4(10, 0, 0, 9));
}

#[test]
fn empty_table_shows_page_one() {
    let table = table_of(0);
    let page = table.list_routes(10, 4);
    assert_eq!(page.info.total_pages, 0);
    assert_eq!(page.info.page, 1);
    assert_eq!(page.items.len(), 0);
}

#[test]
fn page_info_exact_multiple() {
    let info = parse_page_info(20, 10, 2);
    assert_eq!(info.total_pages, 2);
    assert_eq!(info.page, 2);
    let info = parse_page_info(21, 10, 7);
    assert_eq!(info.total_pages, 3);
    assert_eq!(info.page, 3);
}

#[test]
fn search_filters_by_interface_and_gateway() {
    let d = v4(10, 0, 0, 1);
    let a = make_host_route(d, 3, v4(192, 168, 1, 1));
    let b = make_host_route(d, 5, v4(192, 168, 2, 1));
    let c = Route::new(d, 24).ifindex(3);
    let table = RouteTable::new(vec![a, b, c]);
    assert_eq!(table.search_route_by_ip(&d, &32, None, None), vec![a, b]);
    assert_eq!(table.search_route_by_ip(&d, &32, Some(&5), None), vec![b]);
    assert_eq!(table.search_route_by_ip(&d, &32, None, Some(&v4(192, 168, 1, 1))), vec![a]);
    assert_eq!(table.search_route_by_ip(&d, &24, None, None), vec![c]);
    assert_eq!(table.search_route_by_ip(&v4(10, 0, 0, 2), &32, None, None), vec![]);
}

#[test]
fn search_over_address_set() {
    let a = make_host_route(v4(1, 1, 1, 1), 3, v4(192, 168, 1, 1));
    let b = make_host_route(v4(2, 2, 2, 2), 5, v4(192, 168, 1, 1));
    let c = make_host_route(v4(3, 3, 3, 3), 5, v4(192, 168, 1, 1));
    let table = RouteTable::new(vec![a, b, c]);
    let found = table.search_route_by_ip_vec(vec![v4(3, 3, 3, 3), v4(1, 1, 1, 1)], &32, &None, None);
    assert_eq!(found, vec![a, c]);
    let found = table.search_route_by_ip_vec(vec![v4(3, 3, 3, 3), v4(1, 1, 1, 1)], &32, &Some(5), None);
    assert_eq!(found, vec![c]);
}

#[test]
fn new_route_defaults() {
    let r = Route::new(IpAddress::V6(1), 128);
    assert_eq!(r.gateway, IpAddress::V6(0));
    assert_eq!(r.version, 6);
    assert_eq!(r.ifindex, None);
    let h = make_host_route(v4(8, 8, 8, 8), 4, v4(192, 168, 1, 1));
    assert_eq!(h.prefix, 32);
    assert_eq!(h.metric, Some(0));
    assert_eq!(h.ifindex, Some(4));
    assert_eq!(h.version, 4);
}
