use vstd::prelude::*;
use crate::error::{ErrorKind, NetRouteError};
use crate::interface::{
    AdapterInfo,
    Interface,
    adapter_position,
    gateway_by_index_spec,
    gateway_spec,
    get_gateway_ip_by_if_index,
};
use crate::route::{IpAddress, Route};

verus! {

/// The route that an addition submits.
pub open spec fn requested_route(
    destination: IpAddress,
    prefix: u8,
    if_index: u32,
    gateway: IpAddress,
    metric: u32,
) -> Route {
    Route {
        destination,
        prefix,
        gateway,
        ifindex: Some(if_index),
        metric: Some(metric),
        luid: None,
        version: destination.version_spec(),
    }
}

fn build_route(destination: IpAddress, prefix: u8, if_index: u32, gateway: IpAddress, metric: u32) -> (r:
    Route)
    ensures
        r == requested_route(destination, prefix, if_index, gateway, metric),
{
    Route::new(destination, prefix).ifindex(if_index).gateway(gateway).metric(metric)
}

/// The route to add for `destination/prefix` through interface `if_index`:
/// the interface must exist, and without a `gateway` the adapter's own
/// gateway is taken.
pub fn prepare_route(
    adapters: &Vec<AdapterInfo>,
    destination: IpAddress,
    prefix: u8,
    if_index: u32,
    gateway: Option<IpAddress>,
    metric: u32,
) -> (r: Result<Route, NetRouteError>)
    ensures
        adapter_position(adapters@, if_index) is None ==> r is Err && r->Err_0.kind
            == ErrorKind::AdapterNotFound,
        adapter_position(adapters@, if_index) is Some ==> match gateway {
            Some(g) => r == Ok::<Route, NetRouteError>(
                requested_route(destination, prefix, if_index, g, metric),
            ),
            None => match gateway_spec(adapters@[adapter_position(adapters@, if_index)->Some_0]) {
                Some(g) => r == Ok::<Route, NetRouteError>(
                    requested_route(destination, prefix, if_index, g, metric),
                ),
                None => r is Err && r->Err_0.kind == ErrorKind::AdapterHasNoGateway,
            },
        },
{
    let interface = Interface::new();
    let adapter = interface.get_interface_by_index(adapters, &if_index)?;
    let g = match gateway {
        Some(g) => g,
        None => Interface::get_ipv4_gateway(adapter)?,
    };
    Ok(build_route(destination, prefix, if_index, g, metric))
}

/// The host routes for a domain's addresses, in order, through interface
/// `if_index` and its adapter's gateway.
pub open spec fn domain_routes_spec(addrs: Seq<IpAddress>, if_index: u32, gateway: IpAddress, metric: u32) -> Seq<
    Route,
> {
    addrs.map_values(|a: IpAddress| requested_route(a, 32, if_index, gateway, metric))
}

/// The routes that adding a domain's addresses submits: one host route per
/// address through the interface's adapter gateway.
pub fn domain_routes(adapters: &Vec<AdapterInfo>, addrs: &Vec<IpAddress>, if_index: u32, metric: u32) -> (r:
    Result<Vec<Route>, NetRouteError>)
    ensures
        match r {
            Ok(v) => exists|g: IpAddress|
                gateway_by_index_spec(adapters@, if_index) == Ok::<IpAddress, ErrorKind>(g)
                    && v@ == domain_routes_spec(addrs@, if_index, g, metric),
            Err(e) => gateway_by_index_spec(adapters@, if_index) == Err::<IpAddress, ErrorKind>(
                e.kind,
            ),
        },
{
    let g = get_gateway_ip_by_if_index(adapters, &if_index)?;
    let ghost want = domain_routes_spec(addrs@, if_index, g, metric);
    let mut out: Vec<Route> = Vec::new();
    let mut i: usize = 0;
    while i < addrs.len()
        invariant
            i <= addrs@.len(),
            want == domain_routes_spec(addrs@, if_index, g, metric),
            out@ == want.take(i as int),
        decreases addrs.len() - i,
    {
        let r = build_route(addrs[i], 32, if_index, g, metric);
        out.push(r);
        proof {
            assert(want.take(i as int + 1) == want.take(i as int).push(r));
        }
        i = i + 1;
    }
    proof {
        assert(want.take(addrs@.len() as int) == want);
    }
    Ok(out)
}

} // verus!
