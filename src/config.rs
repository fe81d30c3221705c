use vstd::prelude::*;
use crate::error::{ErrorKind, NetRouteError};
use crate::interface::{AdapterInfo, gateway_by_index_spec, get_gateway_ip_by_if_index};
use crate::route::{IpAddress, Route, RouteTable, host_route, make_host_route, search_any_spec};

verus! {

/// One entry of the desired-state document: everything in `domains` and
/// `ips` is to be routed through interface `ifindex`.
#[derive(Debug)]
pub struct RouteConfig {
    pub ifindex: u32,
    pub domains: Vec<String>,
    pub ips: Vec<String>,
}

/// The desired-state document.
#[derive(Debug)]
pub struct RouteConfigData {
    pub routes: Vec<RouteConfig>,
}

/// A document entry with its domains resolved and its literal addresses
/// read: the domains' IPv4 addresses in document order, then the literal ones.
#[derive(Debug)]
pub struct ResolvedRouteConfig {
    pub ifindex: u32,
    pub addresses: Vec<IpAddress>,
}

/// What applying a document takes: the live routes in the way, to delete,
/// and the host routes to add.
#[derive(Debug)]
pub struct ReconcilePlan {
    pub conflicts: Vec<Route>,
    pub additions: Vec<Route>,
}

/// Every address of the document, entry after entry.
pub open spec fn all_addresses(entries: Seq<ResolvedRouteConfig>) -> Seq<IpAddress>
    decreases entries.len(),
{
    if entries.len() == 0 {
        Seq::empty()
    } else {
        all_addresses(entries.drop_last()) + entries.last().addresses@
    }
}

/// The host routes of one entry through gateway `g`.
pub open spec fn entry_routes(e: ResolvedRouteConfig, g: IpAddress) -> Seq<Route> {
    e.addresses@.map_values(|a: IpAddress| host_route(a, e.ifindex, g))
}

/// The host routes that the document asks for, in document order, or the
/// error of the first entry whose interface has no usable gateway.
pub open spec fn planned_additions(entries: Seq<ResolvedRouteConfig>, adapters: Seq<AdapterInfo>) -> Result<
    Seq<Route>,
    ErrorKind,
>
    decreases entries.len(),
{
    if entries.len() == 0 {
        Ok(Seq::empty())
    } else {
        match planned_additions(entries.drop_last(), adapters) {
            Err(k) => Err(k),
            Ok(prev) => match gateway_by_index_spec(adapters, entries.last().ifindex) {
                Err(k) => Err(k),
                Ok(g) => Ok(prev + entry_routes(entries.last(), g)),
            },
        }
    }
}

/// The live host routes whose destination is one of the document's
/// addresses: each exactly once, in table order.
pub open spec fn conflicts_spec(table: Seq<Route>, entries: Seq<ResolvedRouteConfig>) -> Seq<Route> {
    search_any_spec(table, all_addresses(entries), 32, None, None)
}

fn append_routes(out: &mut Vec<Route>, e: &ResolvedRouteConfig, g: IpAddress)
    ensures
        final(out)@ == old(out)@ + entry_routes(*e, g),
{
    let ghost start = out@;
    let mut i: usize = 0;
    while i < e.addresses.len()
        invariant
            i <= e.addresses@.len(),
            out@ == start + entry_routes(*e, g).take(i as int),
        decreases e.addresses.len() - i,
    {
        let r = make_host_route(e.addresses[i], e.ifindex, g);
        out.push(r);
        proof {
            assert(entry_routes(*e, g).take(i as int + 1) == entry_routes(*e, g).take(i as int).push(r));
        }
        i = i + 1;
    }
    proof {
        assert(entry_routes(*e, g).take(e.addresses@.len() as int) == entry_routes(*e, g));
    }
}

fn append_addresses(out: &mut Vec<IpAddress>, addrs: &Vec<IpAddress>)
    ensures
        final(out)@ == old(out)@ + addrs@,
{
    let ghost start = out@;
    let mut i: usize = 0;
    while i < addrs.len()
        invariant
            i <= addrs@.len(),
            out@ == start + addrs@.take(i as int),
        decreases addrs.len() - i,
    {
        out.push(addrs[i]);
        proof {
            assert(addrs@.take(i as int + 1) == addrs@.take(i as int).push(addrs@[i as int]));
        }
        i = i + 1;
    }
    proof {
        assert(addrs@.take(addrs@.len() as int) == addrs@);
    }
}

/// Reconciles the document with the live table: the live host routes to any
/// of its addresses are conflicts, and each address gets a host route
/// (metric 0) through its entry's interface and that adapter's gateway.
pub fn parse_config_to_repeat_and_add_routes(
    win_route: &RouteTable,
    entries: &Vec<ResolvedRouteConfig>,
    adapters: &Vec<AdapterInfo>,
) -> (r: Result<ReconcilePlan, NetRouteError>)
    ensures
        r is Ok <==> planned_additions(entries@, adapters@) is Ok,
        r is Ok ==> r->Ok_0.conflicts@ == conflicts_spec(win_route.routes@, entries@),
        r is Ok ==> r->Ok_0.additions@ == planned_additions(entries@, adapters@)->Ok_0,
        r is Err ==> planned_additions(entries@, adapters@) == Err::<Seq<Route>, ErrorKind>(
            r->Err_0.kind,
        ),
{
    let mut addresses: Vec<IpAddress> = Vec::new();
    let mut additions: Vec<Route> = Vec::new();
    let mut i: usize = 0;
    while i < entries.len()
        invariant
            i <= entries@.len(),
            addresses@ == all_addresses(entries@.take(i as int)),
            planned_additions(entries@.take(i as int), adapters@) == Ok::<Seq<Route>, ErrorKind>(
                additions@,
            ),
        decreases entries.len() - i,
    {
        let e = &entries[i];
        let g = match get_gateway_ip_by_if_index(adapters, &e.ifindex) {
            Ok(g) => g,
            Err(err) => {
                proof {
                    lemma_plan_step(entries@, adapters@, i as int);
                    lemma_planned_error_stays(entries@, adapters@, i as int + 1);
                }
                return Err(err);
            },
        };
        proof {
            lemma_plan_step(entries@, adapters@, i as int);
        }
        append_addresses(&mut addresses, &e.addresses);
        append_routes(&mut additions, e, g);
        i = i + 1;
    }
    proof {
        assert(entries@.take(entries@.len() as int) == entries@);
    }
    let conflicts = win_route.search_route_by_ip_vec(addresses, &32, &None, None);
    Ok(ReconcilePlan { conflicts, additions })
}

proof fn lemma_plan_step(entries: Seq<ResolvedRouteConfig>, adapters: Seq<AdapterInfo>, i: int)
    requires
        0 <= i < entries.len(),
        planned_additions(entries.take(i), adapters) is Ok,
    ensures
        all_addresses(entries.take(i + 1)) == all_addresses(entries.take(i)) + entries[i].addresses@,
        planned_additions(entries.take(i + 1), adapters) == match gateway_by_index_spec(
            adapters,
            entries[i].ifindex,
        ) {
            Err(k) => Err(k),
            Ok(g) => Ok(planned_additions(entries.take(i), adapters)->Ok_0 + entry_routes(
                entries[i],
                g,
            )),
        },
{
    assert(entries.take(i + 1).drop_last() == entries.take(i));
    assert(entries.take(i + 1).last() == entries[i]);
}

proof fn lemma_planned_error_stays(entries: Seq<ResolvedRouteConfig>, adapters: Seq<AdapterInfo>, n: int)
    requires
        0 <= n <= entries.len(),
        planned_additions(entries.take(n), adapters) is Err,
    ensures
        planned_additions(entries, adapters) == planned_additions(entries.take(n), adapters),
    decreases entries.len() - n,
{
    if n < entries.len() {
        assert(entries.take(n + 1).drop_last() == entries.take(n));
        lemma_planned_error_stays(entries, adapters, n + 1);
    } else {
        assert(entries.take(n) == entries);
    }
}

/// The conflicts of a reconciliation are exactly the live host routes whose
/// destination is one of the document's resolved or literal addresses.
pub proof fn lemma_conflicts_exact(table: Seq<Route>, entries: Seq<ResolvedRouteConfig>, r: Route)
    ensures
        conflicts_spec(table, entries).contains(r) <==> (table.contains(r) && r.prefix == 32
            && all_addresses(entries).contains(r.destination)),
{
    let pred = crate::route::search_any_pred(all_addresses(entries), 32, None, None);
    broadcast use vstd::seq_lib::group_filter_ensures;

    if table.contains(r) && r.prefix == 32 && all_addresses(entries).contains(r.destination) {
        let j = choose|j: int| 0 <= j < table.len() && table[j] == r;
        table.lemma_filter_contains(pred, j);
    }
    if conflicts_spec(table, entries).contains(r) {
        let k = choose|k: int|
            0 <= k < conflicts_spec(table, entries).len() && conflicts_spec(table, entries)[k]
                == r;
        table.lemma_filter_pred(pred, k);
        table.lemma_filter_contains_rev(pred, r);
    }
}

} // verus!
