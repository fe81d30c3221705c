use vstd::prelude::*;

verus! {

/// An IP address: four octets, or a 128-bit IPv6 value.
#[derive(Clone, Copy, Debug, PartialEq, Eq, Structural)]
pub enum IpAddress {
    V4(u8, u8, u8, u8),
    V6(u128),
}

impl IpAddress {
    pub fn is_ipv4(&self) -> (r: bool)
        ensures
            r == (*self is V4),
    {
        match self {
            IpAddress::V4(..) => true,
            IpAddress::V6(_) => false,
        }
    }

    /// The IP version number, 4 or 6.
    pub open spec fn version_spec(self) -> u8 {
        match self {
            IpAddress::V4(..) => 4,
            IpAddress::V6(_) => 6,
        }
    }

    /// The unspecified address of the same family (`0.0.0.0` or `::`).
    pub open spec fn unspecified_spec(self) -> IpAddress {
        match self {
            IpAddress::V4(..) => IpAddress::V4(0, 0, 0, 0),
            IpAddress::V6(_) => IpAddress::V6(0),
        }
    }
}

/// One entry of the routing table.
#[derive(Clone, Copy, Debug, PartialEq, Eq, Structural)]
pub struct Route {
    pub destination: IpAddress,
    pub prefix: u8,
    pub gateway: IpAddress,
    pub ifindex: Option<u32>,
    pub metric: Option<u32>,
    pub luid: Option<u64>,
    pub version: u8,
}

impl Route {
    /// A route to `destination/prefix` with an unspecified gateway and no
    /// interface, metric or LUID.
    pub fn new(destination: IpAddress, prefix: u8) -> (r: Route)
        ensures
            r.destination == destination,
            r.prefix == prefix,
            r.gateway == destination.unspecified_spec(),
            r.ifindex is None,
            r.metric is None,
            r.luid is None,
            r.version == destination.version_spec(),
    {
        let (gateway, version) = match destination {
            IpAddress::V4(..) => (IpAddress::V4(0, 0, 0, 0), 4u8),
            IpAddress::V6(_) => (IpAddress::V6(0), 6u8),
        };
        Route { destination, prefix, gateway, ifindex: None, metric: None, luid: None, version }
    }

    pub fn ifindex(self, ifindex: u32) -> (r: Route)
        ensures
            r == (Route { ifindex: Some(ifindex), ..self }),
    {
        Route { ifindex: Some(ifindex), ..self }
    }

    pub fn gateway(self, gateway: IpAddress) -> (r: Route)
        ensures
            r == (Route { gateway, ..self }),
    {
        Route { gateway, ..self }
    }

    pub fn metric(self, metric: u32) -> (r: Route)
        ensures
            r == (Route { metric: Some(metric), ..self }),
    {
        Route { metric: Some(metric), ..self }
    }
}

/// The host route (prefix 32, metric 0) that sends `destination` through
/// interface `ifindex` and `gateway`.
pub open spec fn host_route(destination: IpAddress, ifindex: u32, gateway: IpAddress) -> Route {
    Route {
        destination,
        prefix: 32,
        gateway,
        ifindex: Some(ifindex),
        metric: Some(0),
        luid: None,
        version: destination.version_spec(),
    }
}

pub fn make_host_route(destination: IpAddress, ifindex: u32, gateway: IpAddress) -> (r: Route)
    ensures
        r == host_route(destination, ifindex, gateway),
{
    Route::new(destination, 32).ifindex(ifindex).gateway(gateway).metric(0)
}

/// A route is selected by a search when destination and prefix are equal and
/// each filter that is given is equal too; an absent filter matches anything.
pub open spec fn route_matches(
    r: Route,
    dest: IpAddress,
    prefix: u8,
    ifindex: Option<u32>,
    gateway: Option<IpAddress>,
) -> bool {
    &&& r.destination == dest
    &&& r.prefix == prefix
    &&& (ifindex is None || r.ifindex == ifindex)
    &&& (gateway is None || r.gateway == gateway.unwrap())
}

/// As `route_matches`, with the destination drawn from a set of addresses.
pub open spec fn route_matches_any(
    r: Route,
    dests: Seq<IpAddress>,
    prefix: u8,
    ifindex: Option<u32>,
    gateway: Option<IpAddress>,
) -> bool {
    &&& dests.contains(r.destination)
    &&& r.prefix == prefix
    &&& (ifindex is None || r.ifindex == ifindex)
    &&& (gateway is None || r.gateway == gateway.unwrap())
}

/// The routes of `table`, in table order, that match the search.
pub open spec fn search_spec(
    table: Seq<Route>,
    dest: IpAddress,
    prefix: u8,
    ifindex: Option<u32>,
    gateway: Option<IpAddress>,
) -> Seq<Route> {
    table.filter(search_pred(dest, prefix, ifindex, gateway))
}

pub open spec fn search_pred(
    dest: IpAddress,
    prefix: u8,
    ifindex: Option<u32>,
    gateway: Option<IpAddress>,
) -> spec_fn(Route) -> bool {
    |r: Route| route_matches(r, dest, prefix, ifindex, gateway)
}

pub open spec fn search_any_pred(
    dests: Seq<IpAddress>,
    prefix: u8,
    ifindex: Option<u32>,
    gateway: Option<IpAddress>,
) -> spec_fn(Route) -> bool {
    |r: Route| route_matches_any(r, dests, prefix, ifindex, gateway)
}

/// The routes of `table`, in table order, whose destination is one of `dests`
/// and that match the other filters.
pub open spec fn search_any_spec(
    table: Seq<Route>,
    dests: Seq<IpAddress>,
    prefix: u8,
    ifindex: Option<u32>,
    gateway: Option<IpAddress>,
) -> Seq<Route> {
    table.filter(search_any_pred(dests, prefix, ifindex, gateway))
}

fn filter_matches(r: &Route, prefix: u8, ifindex: Option<u32>, gateway: Option<IpAddress>) -> (b:
    bool)
    ensures
        b == (r.prefix == prefix && (ifindex is None || r.ifindex == ifindex) && (gateway is None
            || r.gateway == gateway.unwrap())),
{
    r.prefix == prefix && match ifindex {
        None => true,
        Some(i) => r.ifindex == Some(i),
    } && match gateway {
        None => true,
        Some(g) => r.gateway == g,
    }
}

pub fn contains_address(addrs: &Vec<IpAddress>, a: &IpAddress) -> (b: bool)
    ensures
        b == addrs@.contains(*a),
{
    let mut i: usize = 0;
    while i < addrs.len()
        invariant
            i <= addrs.len(),
            forall|j: int| 0 <= j < i ==> addrs@[j] != *a,
        decreases addrs.len() - i,
    {
        if addrs[i] == *a {
            return true;
        }
        i = i + 1;
    }
    false
}

/// A snapshot of the routing table, read fresh before each decision.
#[derive(Debug)]
pub struct RouteTable {
    pub routes: Vec<Route>,
}

impl RouteTable {
    pub fn new(routes: Vec<Route>) -> (r: RouteTable)
        ensures
            r.routes@ == routes@,
    {
        RouteTable { routes }
    }

    pub fn get_routes(&self) -> (r: &Vec<Route>)
        ensures
            r@ == self.routes@,
    {
        &self.routes
    }

    /// The routes to `dest/prefix`, narrowed to an interface and a gateway
    /// where those are given.
    pub fn search_route_by_ip(
        &self,
        dest: &IpAddress,
        prefix: &u8,
        if_index: Option<&u32>,
        gateway: Option<&IpAddress>,
    ) -> (r: Vec<Route>)
        ensures
            r@ == search_spec(
                self.routes@,
                *dest,
                *prefix,
                match if_index {
                    Some(i) => Some(*i),
                    None => None,
                },
                match gateway {
                    Some(g) => Some(*g),
                    None => None,
                },
            ),
    {
        let ifindex = match if_index {
            Some(i) => Some(*i),
            None => None,
        };
        let gw = match gateway {
            Some(g) => Some(*g),
            None => None,
        };
        let ghost pred = search_pred(*dest, *prefix, ifindex, gw);
        let table = &self.routes;
        let mut out: Vec<Route> = Vec::new();
        let mut i: usize = 0;
        while i < table.len()
            invariant
                i <= table.len(),
                out@ == table@.take(i as int).filter(pred),
                pred == search_pred(*dest, *prefix, ifindex, gw),
            decreases table.len() - i,
        {
            let r = table[i];
            proof {
                assert(table@.take(i as int + 1) == table@.take(i as int).push(r));
                table@.take(i as int).lemma_filter_push(r, pred);
            }
            let keep = r.destination == *dest && filter_matches(&r, *prefix, ifindex, gw);
            assert(keep == pred(r));
            if keep {
                out.push(r);
            }
            i = i + 1;
        }
        proof {
            assert(table@.take(table.len() as int) == table@);
        }
        out
    }

    /// The routes whose destination is one of `ip_vec` and that match the
    /// prefix and the filters that are given.
    pub fn search_route_by_ip_vec(
        &self,
        ip_vec: Vec<IpAddress>,
        prefix: &u8,
        if_index: &Option<u32>,
        gateway: Option<&IpAddress>,
    ) -> (r: Vec<Route>)
        ensures
            r@ == search_any_spec(
                self.routes@,
                ip_vec@,
                *prefix,
                *if_index,
                match gateway {
                    Some(g) => Some(*g),
                    None => None,
                },
            ),
    {
        let gw = match gateway {
            Some(g) => Some(*g),
            None => None,
        };
        let ghost pred = search_any_pred(ip_vec@, *prefix, *if_index, gw);
        let table = &self.routes;
        let mut out: Vec<Route> = Vec::new();
        let mut i: usize = 0;
        while i < table.len()
            invariant
                i <= table.len(),
                out@ == table@.take(i as int).filter(pred),
                pred == search_any_pred(ip_vec@, *prefix, *if_index, gw),
            decreases table.len() - i,
        {
            let r = table[i];
            proof {
                assert(table@.take(i as int + 1) == table@.take(i as int).push(r));
                table@.take(i as int).lemma_filter_push(r, pred);
            }
            let keep = contains_address(&ip_vec, &r.destination) && filter_matches(
                &r,
                *prefix,
                *if_index,
                gw,
            );
            assert(keep == pred(r));
            if keep {
                out.push(r);
            }
            i = i + 1;
        }
        proof {
            assert(table@.take(table.len() as int) == table@);
        }
        out
    }
}

/// Number of pages that `total` items fill at `page_size` items a page.
pub open spec fn total_pages_spec(total: int, page_size: int) -> int {
    if total % page_size == 0 {
        total / page_size
    } else {
        total / page_size + 1
    }
}

/// The page actually shown: the requested one, clamped to the last page,
/// and never below 1.
pub open spec fn effective_page_spec(total: int, page_size: int, page: int) -> int {
    let pages = total_pages_spec(total, page_size);
    if page <= pages {
        page
    } else if pages >= 1 {
        pages
    } else {
        1
    }
}

/// Index of the first item of the page that is shown.
pub open spec fn page_offset_spec(total: int, page_size: int, page: int) -> int {
    (effective_page_spec(total, page_size, page) - 1) * page_size
}

/// Number of items on the page that is shown.
pub open spec fn page_len_spec(total: int, page_size: int, page: int) -> int {
    let rest = total - page_offset_spec(total, page_size, page);
    if page_size <= rest {
        page_size
    } else {
        rest
    }
}

/// Totals of a listing and the page that is shown.
#[derive(Clone, Copy, Debug, PartialEq, Eq, Structural)]
pub struct PageInfo {
    pub total: usize,
    pub total_pages: usize,
    pub page: usize,
}

proof fn lemma_page_offset(total: int, page_size: int, page: int)
    requires
        total >= 0,
        page_size >= 1,
        page >= 1,
    ensures
        0 <= page_offset_spec(total, page_size, page) <= total,
        total > 0 ==> page_offset_spec(total, page_size, page) < total,
        1 <= effective_page_spec(total, page_size, page) <= page,
        total_pages_spec(total, page_size) <= total,
{
    let q = total / page_size;
    let e = effective_page_spec(total, page_size, page);
    assert(q * page_size + total % page_size == total) by (nonlinear_arith)
        requires
            page_size >= 1,
            q == total / page_size,
    ;
    assert(0 <= total % page_size < page_size);
    assert(q <= total) by (nonlinear_arith)
        requires
            page_size >= 1,
            q == total / page_size,
            total >= 0,
    ;
    assert(q >= 0);
    if total == 0 {
        assert(e == 1);
    } else if total % page_size == 0 {
        assert(q >= 1) by (nonlinear_arith)
            requires
                q * page_size == total,
                total > 0,
                page_size >= 1,
        ;
        assert((e - 1) * page_size <= (q - 1) * page_size) by (nonlinear_arith)
            requires
                1 <= e <= q,
                page_size >= 1,
        ;
        assert((q - 1) * page_size == total - page_size) by (nonlinear_arith)
            requires
                q * page_size == total,
        ;
    } else {
        assert((e - 1) * page_size <= q * page_size) by (nonlinear_arith)
            requires
                1 <= e <= q + 1,
                page_size >= 1,
        ;
        assert(q + 1 <= total) by (nonlinear_arith)
            requires
                q * page_size + total % page_size == total,
                0 < total % page_size < page_size,
                q >= 0,
                page_size >= 1,
        ;
    }
    assert((e - 1) * page_size >= 0) by (nonlinear_arith)
        requires
            e >= 1,
            page_size >= 1,
    ;
}

/// How many pages `total_size` items fill and which page is shown for the
/// request `current_page`.
pub fn parse_page_info(total_size: usize, page_size: usize, current_page: usize) -> (r: PageInfo)
    requires
        page_size >= 1,
        current_page >= 1,
    ensures
        r.total == total_size,
        r.total_pages == total_pages_spec(total_size as int, page_size as int),
        r.page == effective_page_spec(total_size as int, page_size as int, current_page as int),
{
    proof {
        lemma_page_offset(total_size as int, page_size as int, current_page as int);
    }
    let total_pages = if total_size % page_size == 0 {
        total_size / page_size
    } else {
        total_size / page_size + 1
    };
    let page = if current_page <= total_pages {
        current_page
    } else if total_pages >= 1 {
        total_pages
    } else {
        1
    };
    PageInfo { total: total_size, total_pages, page }
}

/// One page of a listing and where it stands.
#[derive(Debug)]
pub struct RoutePage {
    pub items: Vec<Route>,
    pub info: PageInfo,
}

impl RouteTable {
    /// The page `page` of the table at `page_size` routes a page, the page
    /// clamped to `[1, total pages]`.
    pub fn list_routes(&self, page_size: usize, page: usize) -> (r: RoutePage)
        requires
            page_size >= 1,
            page >= 1,
        ensures
            r.info.total == self.routes@.len(),
            r.info.total_pages == total_pages_spec(self.routes@.len() as int, page_size as int),
            r.info.page == effective_page_spec(
                self.routes@.len() as int,
                page_size as int,
                page as int,
            ),
            r.items@.len() == page_len_spec(self.routes@.len() as int, page_size as int, page as int),
            r.items@ == self.routes@.subrange(
                page_offset_spec(self.routes@.len() as int, page_size as int, page as int),
                page_offset_spec(self.routes@.len() as int, page_size as int, page as int)
                    + page_len_spec(self.routes@.len() as int, page_size as int, page as int),
            ),
    {
        let total = self.routes.len();
        let info = parse_page_info(total, page_size, page);
        proof {
            lemma_page_offset(total as int, page_size as int, page as int);
        }
        let offset = (info.page - 1) * page_size;
        let len = if page_size <= total - offset {
            page_size
        } else {
            total - offset
        };
        let mut items: Vec<Route> = Vec::new();
        let mut i: usize = 0;
        while i < len
            invariant
                i <= len,
                offset + len <= total,
                total == self.routes@.len(),
                items@ == self.routes@.subrange(offset as int, offset + i),
            decreases len - i,
        {
            items.push(self.routes[offset + i]);
            i = i + 1;
        }
        RoutePage { items, info }
    }
}

} // verus!
