use vstd::prelude::*;
use crate::error::{ErrorKind, NetRouteError, fail};
use crate::route::IpAddress;
use crate::text::{dec_text, hex_byte, join, push_char, push_dec, push_hex};

verus! {

/// The kind of a network adapter.
#[derive(Clone, Copy, Debug, PartialEq, Eq, Structural)]
pub enum InterfaceKind {
    Other,
    EthernetCsmacd,
    Iso88025Tokenring,
    Ppp,
    SoftwareLoopback,
    Atm,
    Ieee80211,
    Tunnel,
    Ieee1394,
    Unsupported,
    /// A kind without a name of its own here.
    Unknown,
}

/// One entry of the secondary adapter enumeration: a MAC address, as that
/// source writes it, and the interface index.
#[derive(Debug)]
pub struct MacIndex {
    pub mac_addr: Option<String>,
    pub index: u32,
}

/// What the adapter enumeration reports of one adapter.
#[derive(Debug)]
pub struct RawAdapter {
    pub friendly_name: String,
    /// The interface index; 0 where the system gave none.
    pub ipv6_if_index: u32,
    pub physical_address: Option<Vec<u8>>,
    pub ip_addresses: Vec<IpAddress>,
    pub gateways: Vec<IpAddress>,
    pub if_type: InterfaceKind,
}

/// A snapshot of one network adapter.
#[derive(Debug)]
pub struct AdapterInfo {
    pub name: String,
    pub index: u32,
    /// `aa:bb:..` or `N/A`.
    pub mac_address: String,
    /// The IPv4 addresses, comma-joined, or `N/A`.
    pub ip_address: String,
    /// The IPv4 gateways, comma-joined, or `N/A`.
    pub gateway: String,
    pub ip_addresses: Vec<IpAddress>,
    pub gateways: Vec<IpAddress>,
    pub if_type: InterfaceKind,
}

/// Reads adapters from a snapshot of the adapter enumeration.
#[derive(Debug)]
pub struct Interface;

/// Upper-case form of a text, as `str::to_uppercase` gives it.
pub uninterp spec fn uppercase_of(s: Seq<char>) -> Seq<char>;

/// Relies on `str::to_uppercase`: the upper-case form depends on the
/// characters alone.
#[verifier::external_body]
fn to_upper(s: &String) -> (r: String)
    ensures
        r@ == uppercase_of(s@),
{
    s.to_uppercase()
}

/// Dotted-decimal text of an IPv4 address.
pub open spec fn ipv4_text(a: u8, b: u8, c: u8, d: u8) -> Seq<char> {
    dec_text(a as nat) + seq!['.'] + dec_text(b as nat) + seq!['.'] + dec_text(c as nat) + seq![
        '.',
    ] + dec_text(d as nat)
}

/// The IPv4 addresses of `addrs`, in order.
pub open spec fn ipv4_only(addrs: Seq<IpAddress>) -> Seq<IpAddress> {
    addrs.filter(|a: IpAddress| a is V4)
}

pub open spec fn address_text(a: IpAddress) -> Seq<char> {
    match a {
        IpAddress::V4(x, y, z, w) => ipv4_text(x, y, z, w),
        IpAddress::V6(_) => Seq::empty(),
    }
}

/// The IPv4 addresses of a list, comma-joined, or `N/A` where there is none.
pub open spec fn address_list_text(addrs: Seq<IpAddress>) -> Seq<char> {
    let v4 = ipv4_only(addrs);
    if v4.len() == 0 {
        seq!['N', '/', 'A']
    } else {
        join(v4.map_values(|a: IpAddress| address_text(a)), seq![',', ' '])
    }
}

/// MAC address text: two lower-case hex digits a byte, colon-separated.
pub open spec fn mac_text(bytes: Seq<u8>) -> Seq<char> {
    join(bytes.map_values(|b: u8| hex_byte(b)), seq![':'])
}

/// The label shown for each adapter kind.
pub open spec fn if_type_label(kind: InterfaceKind) -> Seq<char> {
    match kind {
        InterfaceKind::Other => "其他"@,
        InterfaceKind::EthernetCsmacd => "以太网"@,
        InterfaceKind::Iso88025Tokenring => "令牌环"@,
        InterfaceKind::Ppp => "点对点协议"@,
        InterfaceKind::SoftwareLoopback => "软件回环"@,
        InterfaceKind::Atm => "ATM"@,
        InterfaceKind::Ieee80211 => "无线局域网"@,
        InterfaceKind::Tunnel => "隧道"@,
        InterfaceKind::Ieee1394 => "IEEE 1394"@,
        InterfaceKind::Unsupported => "不支持"@,
        InterfaceKind::Unknown => "未知"@,
    }
}

/// The label shown for an adapter kind.
pub fn parse_if_type(if_type: InterfaceKind) -> (r: String)
    ensures
        r@ == if_type_label(if_type),
{
    let s = match if_type {
        InterfaceKind::Other => "其他",
        InterfaceKind::EthernetCsmacd => "以太网",
        InterfaceKind::Iso88025Tokenring => "令牌环",
        InterfaceKind::Ppp => "点对点协议",
        InterfaceKind::SoftwareLoopback => "软件回环",
        InterfaceKind::Atm => "ATM",
        InterfaceKind::Ieee80211 => "无线局域网",
        InterfaceKind::Tunnel => "隧道",
        InterfaceKind::Ieee1394 => "IEEE 1394",
        InterfaceKind::Unsupported => "不支持",
        InterfaceKind::Unknown => "未知",
    };
    String::from_str(s)
}

/// The text of a MAC address, or `None` where the adapter has none.
pub fn parse_mac_address(mac_address: Option<&[u8]>) -> (r: Option<String>)
    ensures
        r is None <==> mac_address is None,
        r is Some ==> r->Some_0@ == mac_text(mac_address->Some_0@),
{
    match mac_address {
        None => None,
        Some(mac) => {
            let ghost parts = mac@.map_values(|b: u8| hex_byte(b));
            let mut out = String::new();
            let mut i: usize = 0;
            while i < mac.len()
                invariant
                    i <= mac@.len(),
                    parts == mac@.map_values(|b: u8| hex_byte(b)),
                    out@ == join(parts.take(i as int), seq![':']),
                decreases mac.len() - i,
            {
                proof {
                    assert(parts.take(i as int + 1).drop_last() == parts.take(i as int));
                }
                if i > 0 {
                    push_char(&mut out, ':');
                }
                push_hex(&mut out, mac[i]);
                proof {
                    if i == 0 {
                        assert(out@ == hex_byte(mac@[0]));
                    }
                }
                i = i + 1;
            }
            proof {
                assert(parts.take(mac@.len() as int) == parts);
            }
            Some(out)
        },
    }
}

fn push_address(out: &mut String, a: IpAddress)
    ensures
        final(out)@ == old(out)@ + address_text(a),
{
    match a {
        IpAddress::V4(x, y, z, w) => {
            push_dec(out, x);
            push_char(out, '.');
            push_dec(out, y);
            push_char(out, '.');
            push_dec(out, z);
            push_char(out, '.');
            push_dec(out, w);
            assert(final(out)@ =~= old(out)@ + address_text(a));
        },
        IpAddress::V6(_) => {},
    }
}

/// The IPv4 addresses of `addrs`, in order.
pub fn ipv4_addresses(addrs: &Vec<IpAddress>) -> (r: Vec<IpAddress>)
    ensures
        r@ == ipv4_only(addrs@),
{
    let ghost pred = |a: IpAddress| a is V4;
    let mut out: Vec<IpAddress> = Vec::new();
    let mut i: usize = 0;
    while i < addrs.len()
        invariant
            i <= addrs.len(),
            pred == (|a: IpAddress| a is V4),
            out@ == addrs@.take(i as int).filter(pred),
        decreases addrs.len() - i,
    {
        let a = addrs[i];
        proof {
            assert(addrs@.take(i as int + 1) == addrs@.take(i as int).push(a));
            addrs@.take(i as int).lemma_filter_push(a, pred);
        }
        if a.is_ipv4() {
            out.push(a);
        }
        i = i + 1;
    }
    proof {
        assert(addrs@.take(addrs.len() as int) == addrs@);
    }
    out
}

/// The IPv4 addresses of a list, comma-joined, or `N/A` where there is none.
pub fn parse_address_list_to_string(addresses: &Vec<IpAddress>) -> (r: String)
    ensures
        r@ == address_list_text(addresses@),
{
    let v4 = ipv4_addresses(addresses);
    if v4.len() == 0 {
        let r = String::from_str("N/A");
        proof {
            reveal_strlit("N/A");
        }
        return r;
    }
    let ghost parts = v4@.map_values(|a: IpAddress| address_text(a));
    let mut out = String::new();
    let mut i: usize = 0;
    while i < v4.len()
        invariant
            i <= v4@.len(),
            parts == v4@.map_values(|a: IpAddress| address_text(a)),
            out@ == join(parts.take(i as int), seq![',', ' ']),
        decreases v4.len() - i,
    {
        proof {
            assert(parts.take(i as int + 1).drop_last() == parts.take(i as int));
        }
        if i > 0 {
            push_char(&mut out, ',');
            push_char(&mut out, ' ');
        }
        push_address(&mut out, v4[i]);
        proof {
            if i == 0 {
                assert(out@ == address_text(v4@[0]));
            } else {
                assert(out@ =~= join(parts.take(i as int), seq![',', ' ']) + seq![',', ' ']
                    + parts[i as int]);
            }
        }
        i = i + 1;
    }
    proof {
        assert(parts.take(v4@.len() as int) == parts);
    }
    out
}

/// The index of the first entry whose MAC address equals `key` up to case.
pub open spec fn first_mac_index(entries: Seq<MacIndex>, key: Seq<char>) -> u32
    decreases entries.len(),
{
    if entries.len() == 0 {
        0
    } else if entries[0].mac_addr is Some && uppercase_of(entries[0].mac_addr->Some_0@)
        == uppercase_of(key) {
        entries[0].index
    } else {
        first_mac_index(entries.skip(1), key)
    }
}

/// The index of the interface whose MAC address equals `mac_address` up to
/// case; 0 where there is no MAC address or no such interface.
pub fn find_interface_index_by_mac(network_interfaces: &Vec<MacIndex>, mac_address: &Option<String>) -> (r:
    u32)
    ensures
        r == match mac_address {
            None => 0,
            Some(m) => first_mac_index(network_interfaces@, m@),
        },
{
    let mac = match mac_address {
        Some(mac) => mac,
        None => return 0,
    };
    let key = to_upper(mac);
    let mut i: usize = 0;
    assert(network_interfaces@.skip(0) == network_interfaces@);
    while i < network_interfaces.len()
        invariant
            i <= network_interfaces@.len(),
            key@ == uppercase_of(mac@),
            *mac_address == Some(*mac),
            first_mac_index(network_interfaces@, mac@) == first_mac_index(
                network_interfaces@.skip(i as int),
                mac@,
            ),
        decreases network_interfaces.len() - i,
    {
        proof {
            assert(network_interfaces@.skip(i as int).skip(1) == network_interfaces@.skip(
                i as int + 1,
            ));
        }
        let entry = &network_interfaces[i];
        assert(network_interfaces@.skip(i as int)[0] == network_interfaces@[i as int]);
        if let Some(m) = &entry.mac_addr {
            let upper = to_upper(m);
            let same = upper == key;
            assert(same == (uppercase_of(m@) == uppercase_of(mac@)));
            if same {
                return entry.index;
            }
        }
        i = i + 1;
    }
    0
}

/// An adapter as shown: the index taken from the secondary enumeration by
/// MAC address where the system gave none.
pub fn adapter_info_from(raw: RawAdapter, network_interfaces: &Vec<MacIndex>) -> (r: AdapterInfo)
    ensures
        r.name@ == raw.friendly_name@,
        raw.physical_address is None ==> r.mac_address@ == "N/A"@,
        raw.physical_address is Some ==> r.mac_address@ == mac_text(
            raw.physical_address->Some_0@,
        ),
        raw.ipv6_if_index != 0 ==> r.index == raw.ipv6_if_index,
        raw.ipv6_if_index == 0 ==> r.index == match raw.physical_address {
            None => 0,
            Some(p) => first_mac_index(network_interfaces@, mac_text(p@)),
        },
        r.ip_address@ == address_list_text(raw.ip_addresses@),
        r.gateway@ == address_list_text(raw.gateways@),
        r.ip_addresses@ == raw.ip_addresses@,
        r.gateways@ == raw.gateways@,
        r.if_type == raw.if_type,
{
    let mac = match &raw.physical_address {
        Some(p) => parse_mac_address(Some(p.as_slice())),
        None => None,
    };
    let mut index = raw.ipv6_if_index;
    if index == 0 {
        index = find_interface_index_by_mac(network_interfaces, &mac);
    }
    let mac_address = match mac {
        Some(m) => m,
        None => String::from_str("N/A"),
    };
    let ip_address = parse_address_list_to_string(&raw.ip_addresses);
    let gateway = parse_address_list_to_string(&raw.gateways);
    AdapterInfo {
        name: raw.friendly_name,
        index,
        mac_address,
        ip_address,
        gateway,
        ip_addresses: raw.ip_addresses,
        gateways: raw.gateways,
        if_type: raw.if_type,
    }
}

/// The position of the first adapter with `index`, if any.
pub open spec fn adapter_position(adapters: Seq<AdapterInfo>, index: u32) -> Option<int> {
    if exists|j: int| 0 <= j < adapters.len() && adapters[j].index == index {
        Some(
            choose|j: int|
                0 <= j < adapters.len() && adapters[j].index == index && forall|k: int|
                    0 <= k < j ==> adapters[k].index != index,
        )
    } else {
        None
    }
}

/// The single IPv4 gateway of an adapter, if it has exactly one.
pub open spec fn gateway_spec(adapter: AdapterInfo) -> Option<IpAddress> {
    let v4 = ipv4_only(adapter.gateways@);
    if v4.len() == 1 {
        Some(v4[0])
    } else {
        None
    }
}

impl Interface {
    pub fn new() -> (r: Interface) {
        Interface
    }

    /// The first adapter of the snapshot with interface index `index`.
    pub fn get_interface_by_index<'a>(&self, adapters: &'a Vec<AdapterInfo>, index: &u32) -> (r:
        Result<&'a AdapterInfo, NetRouteError>)
        ensures
            r is Ok <==> adapter_position(adapters@, *index) is Some,
            r is Ok ==> *r->Ok_0 == adapters@[adapter_position(adapters@, *index)->Some_0],
            r is Err ==> r->Err_0.kind == ErrorKind::AdapterNotFound,
    {
        let mut i: usize = 0;
        while i < adapters.len()
            invariant
                i <= adapters@.len(),
                forall|k: int| 0 <= k < i ==> adapters@[k].index != *index,
            decreases adapters.len() - i,
        {
            if adapters[i].index == *index {
                proof {
                    let j = adapter_position(adapters@, *index)->Some_0;
                    assert(adapters@[i as int].index == *index);
                    if j < i {
                    } else if j > i {
                    }
                    assert(j == i);
                }
                return Ok(&adapters[i]);
            }
            i = i + 1;
        }
        Err(fail(ErrorKind::AdapterNotFound, "Adapter with the given index not found"))
    }

    /// The adapter's gateway: it must have exactly one IPv4 gateway.
    pub fn get_ipv4_gateway(adapter: &AdapterInfo) -> (r: Result<IpAddress, NetRouteError>)
        ensures
            r is Ok <==> gateway_spec(*adapter) is Some,
            r is Ok ==> r->Ok_0 == gateway_spec(*adapter)->Some_0,
            r is Err ==> r->Err_0.kind == ErrorKind::AdapterHasNoGateway,
    {
        let v4 = ipv4_addresses(&adapter.gateways);
        if v4.len() == 1 {
            Ok(v4[0])
        } else {
            Err(fail(ErrorKind::AdapterHasNoGateway, "adapter has no single IPv4 gateway"))
        }
    }
}

/// The gateway that routes through interface `ifindex` take, or the kind of
/// error where there is none.
#[verifier::opaque]
pub open spec fn gateway_by_index_spec(adapters: Seq<AdapterInfo>, ifindex: u32) -> Result<
    IpAddress,
    ErrorKind,
> {
    match adapter_position(adapters, ifindex) {
        None => Err(ErrorKind::AdapterNotFound),
        Some(j) => match gateway_spec(adapters[j]) {
            Some(g) => Ok(g),
            None => Err(ErrorKind::AdapterHasNoGateway),
        },
    }
}

/// The first adapter of the snapshot with interface index `if_index`.
pub fn get_adapter_by_if_index<'a>(adapters: &'a Vec<AdapterInfo>, if_index: &u32) -> (r: Result<
    &'a AdapterInfo,
    NetRouteError,
>)
    ensures
        r is Ok <==> adapter_position(adapters@, *if_index) is Some,
        r is Ok ==> *r->Ok_0 == adapters@[adapter_position(adapters@, *if_index)->Some_0],
        r is Err ==> r->Err_0.kind == ErrorKind::AdapterNotFound,
{
    let interface = Interface::new();
    interface.get_interface_by_index(adapters, if_index)
}

/// The gateway of the adapter with index `if_index`.
pub fn get_gateway_ip_by_if_index(adapters: &Vec<AdapterInfo>, if_index: &u32) -> (r: Result<
    IpAddress,
    NetRouteError,
>)
    ensures
        match r {
            Ok(g) => gateway_by_index_spec(adapters@, *if_index) == Ok::<IpAddress, ErrorKind>(g),
            Err(e) => gateway_by_index_spec(adapters@, *if_index) == Err::<IpAddress, ErrorKind>(
                e.kind,
            ),
        },
{
    proof {
        reveal(gateway_by_index_spec);
    }
    let adapter = get_adapter_by_if_index(adapters, if_index)?;
    Interface::get_ipv4_gateway(adapter)
}

} // verus!
