use vstd::prelude::*;

use crate::text::{
    all_digits, count_ones, decimal, decimal_string, digits_value, ones, parse_unsigned,
    split_char, split_on, str_eq, unsigned_body, views,
};

verus! {

/// Whether `p` is one octet of a dotted-quad address: one to three digits, no leading zero,
/// at most 255.
pub open spec fn is_octet_text(p: Seq<char>) -> bool {
    &&& 1 <= p.len() <= 3
    &&& all_digits(p)
    &&& (p.len() == 1 || p[0] != '0')
    &&& digits_value(p) <= 255
}

/// Whether `s` is an IPv4 address in dotted-quad form, as `std::net::Ipv4Addr` reads it.
pub open spec fn is_ipv4_text(s: Seq<char>) -> bool {
    let parts = split_on(s, '.');
    &&& parts.len() == 4
    &&& forall|i: int| 0 <= i < 4 ==> is_octet_text(#[trigger] parts[i])
}

fn is_octet(p: &str) -> (r: bool)
    ensures
        r == is_octet_text(p@),
{
    let n = p.unicode_len();
    if n < 1 || n > 3 {
        return false;
    }
    let first = p.get_char(0);
    if !('0' <= first && first <= '9') {
        return false;
    }
    if n > 1 && first == '0' {
        return false;
    }
    let v = parse_unsigned(p, 255);
    proof {
        assert(p@.len() > 0 && p@[0] != '+');
    }
    v.is_some()
}

/// Checks that `s` is an IPv4 address in dotted-quad form.
pub fn is_ipv4_addr(s: &str) -> (r: bool)
    ensures
        r == is_ipv4_text(s@),
{
    let parts = split_char(s, '.');
    if parts.len() != 4 {
        return false;
    }
    let mut i: usize = 0;
    while i < 4
        invariant
            views(parts@) == split_on(s@, '.'),
            parts@.len() == 4,
            i <= 4,
            forall|k: int| 0 <= k < i ==> is_octet_text(#[trigger] split_on(s@, '.')[k]),
        decreases 4 - i,
    {
        proof {
            assert(views(parts@)[i as int] == parts@[i as int]@);
        }
        if !is_octet(parts[i].as_str()) {
            return false;
        }
        i = i + 1;
    }
    true
}

/// The prefix length of a subnet mask: the one bits of all its parts.
pub open spec fn mask_prefix(parts: Seq<Seq<char>>) -> nat
    decreases parts.len(),
{
    if parts.len() == 0 {
        0
    } else {
        mask_prefix(parts.drop_last()) + ones(digits_value(parts.last()))
    }
}

/// `ip` followed by the prefix length of `subnet_mask`, the way CIDR writes an address.
pub open spec fn cidr_text(ip: Seq<char>, subnet_mask: Seq<char>) -> Seq<char> {
    ip + "/"@ + decimal(mask_prefix(split_on(subnet_mask, '.')))
}

/// Writes `ip` with the prefix length of `subnet_mask` (`10.0.0.1/24`). The mask must be a
/// dotted quad of four bytes; anything else is refused.
pub fn ip_with_cidr(ip: &str, subnet_mask: &str) -> (r: Result<String, String>)
    ensures
        is_ipv4_text(subnet_mask@) <==> r is Ok,
        r matches Ok(t) ==> t@ == cidr_text(ip@, subnet_mask@),
        r matches Err(e) ==> e@ == "Invalid subnet mask"@,
{
    if !is_ipv4_addr(subnet_mask) {
        return Err("Invalid subnet mask".to_owned());
    }
    let parts = split_char(subnet_mask, '.');
    let ghost ps = views(parts@);
    let mut prefix: u32 = 0;
    let mut i: usize = 0;
    while i < 4
        invariant
            ps == views(parts@),
            ps == split_on(subnet_mask@, '.'),
            is_ipv4_text(subnet_mask@),
            parts@.len() == 4,
            i <= 4,
            prefix == mask_prefix(ps.take(i as int)),
            prefix <= 8 * i,
        decreases 4 - i,
    {
        proof {
            assert(ps[i as int] == parts@[i as int]@);
            assert(is_octet_text(ps[i as int]));
            assert(ps[i as int][0] != '+');
        }
        let byte: u8 = match parse_unsigned(parts[i].as_str(), 255) {
            Some(v) => v as u8,
            None => 0,
        };
        let c = count_ones(byte);
        proof {
            assert(ps.take(i + 1).drop_last() == ps.take(i as int));
            assert(unsigned_body(ps[i as int]) == ps[i as int]);
            assert(byte == digits_value(ps[i as int]));
            assert(c <= 8) by {
                lemma_ones_of_byte(byte);
            }
        }
        prefix = prefix + c;
        i = i + 1;
    }
    proof {
        assert(ps.take(4) == ps);
    }
    let tail = decimal_string(prefix as u64);
    Ok(ip.to_owned().concat("/").concat(tail.as_str()))
}

proof fn lemma_ones_of_byte(b: u8)
    ensures
        ones(b as nat) <= 8,
{
    let n = b as nat;
    reveal_with_fuel(ones, 9);
    assert(n / 2 / 2 / 2 / 2 / 2 / 2 / 2 / 2 == 0);
}

/// An IPv4 address as its four octets, most significant first.
#[derive(Clone, Copy, Debug, PartialEq, Eq, Structural)]
pub struct Ipv4Address {
    pub a: u8,
    pub b: u8,
    pub c: u8,
    pub d: u8,
}

/// The broadcast address of the network of `ip` under `netmask`: every host bit set.
pub fn calculate_broadcast(ip: Ipv4Address, netmask: Ipv4Address) -> (r: Ipv4Address)
    ensures
        r.a == ip.a | !netmask.a,
        r.b == ip.b | !netmask.b,
        r.c == ip.c | !netmask.c,
        r.d == ip.d | !netmask.d,
{
    Ipv4Address {
        a: ip.a | !netmask.a,
        b: ip.b | !netmask.b,
        c: ip.c | !netmask.c,
        d: ip.d | !netmask.d,
    }
}

/// The configuration of one network interface.
#[derive(Clone, Debug)]
pub struct InterfaceConfig {
    pub ip_address: Ipv4Address,
    pub netmask: Ipv4Address,
    pub broadcast: Ipv4Address,
    pub mac_address: String,
    pub mtu: u32,
    pub flags: Vec<String>,
    pub is_up: bool,
}

/// An interface's address and whether it is up.
#[derive(Clone, Debug)]
pub struct InterfacesConfig {
    pub ip_address: Ipv4Address,
    pub is_up: bool,
}

/// `parts` joined with `sep` between neighbours.
pub open spec fn joined(parts: Seq<Seq<char>>, sep: Seq<char>) -> Seq<char>
    decreases parts.len(),
{
    if parts.len() == 0 {
        Seq::empty()
    } else if parts.len() == 1 {
        parts[0]
    } else {
        joined(parts.drop_last(), sep) + sep + parts.last()
    }
}

/// Joins `parts` with `sep` between neighbours.
pub fn join(parts: &Vec<String>, sep: &str) -> (r: String)
    ensures
        r@ == joined(views(parts@), sep@),
{
    let mut out = String::new();
    let mut i: usize = 0;
    while i < parts.len()
        invariant
            i <= parts@.len(),
            out@ == joined(views(parts@).take(i as int), sep@),
        decreases parts@.len() - i,
    {
        proof {
            assert(views(parts@).take(i + 1).drop_last() =~= views(parts@).take(i as int));
            assert(views(parts@)[i as int] == parts@[i as int]@);
        }
        if i == 0 {
            out = parts[i].clone();
        } else {
            out = out.concat(sep).concat(parts[i].as_str());
        }
        i = i + 1;
    }
    proof {
        assert(views(parts@).take(parts@.len() as int) =~= views(parts@));
    }
    out
}

/// The flag list of an interface in angle brackets, `UP` first when it is up.
pub open spec fn flags_text(flags: Seq<Seq<char>>, is_up: bool) -> Seq<char> {
    let listed = joined(flags, ","@);
    "<"@ + (if is_up {
        "UP,"@ + listed
    } else {
        listed
    }) + ">"@
}

/// Writes the flags of an interface as `ifconfig` does.
pub fn format_flags(interface: &InterfaceConfig) -> (r: String)
    ensures
        r@ == flags_text(views(interface.flags@), interface.is_up),
{
    let listed = join(&interface.flags, ",");
    let inner = if interface.is_up {
        "UP,".to_owned().concat(listed.as_str())
    } else {
        listed
    };
    "<".to_owned().concat(inner.as_str()).concat(">")
}

/// The names of the network interfaces, comma separated, for messages.
pub fn interface_names(list: &Vec<String>) -> (r: String)
    ensures
        r@ == joined(views(list@), ", "@),
{
    join(list, ", ")
}

/// One configured NTP peer and its last known synchronisation figures. Delay, offset and
/// dispersion are in hundredths of a millisecond.
#[derive(Clone, Debug)]
pub struct NtpAssociation {
    pub address: String,
    pub ref_clock: String,
    pub st: u8,
    pub when: String,
    pub poll: u8,
    pub reach: u8,
    pub delay: i32,
    pub offset: i32,
    pub disp: i32,
}

/// Whether `a` is the record that `ntp server` makes for `address` before any exchange.
pub open spec fn is_fresh_association(a: NtpAssociation, address: Seq<char>) -> bool {
    &&& a.address@ == address
    &&& a.ref_clock@ == ".INIT."@
    &&& a.st == 16
    &&& a.when@ == "-"@
    &&& a.poll == 64
    &&& a.reach == 0
    &&& a.delay == 0
    &&& a.offset == 0
    &&& a.disp == 1
}

impl NtpAssociation {
    /// The record of a newly configured server: not yet synchronised.
    pub fn unsynchronized(address: &String) -> (r: NtpAssociation)
        ensures
            is_fresh_association(r, address@),
    {
        NtpAssociation {
            address: address.clone(),
            ref_clock: ".INIT.".to_owned(),
            st: 16,
            when: "-".to_owned(),
            poll: 64,
            reach: 0,
            delay: 0,
            offset: 0,
            disp: 1,
        }
    }
}

/// The settings of one OSPF area.
#[derive(Clone, Copy, Debug)]
pub struct AreaConfig {
    pub authentication: bool,
    pub stub: bool,
    pub default_cost: Option<u32>,
}

/// OSPF settings held as configuration state; keyed collections keep one entry per key.
#[derive(Clone, Debug)]
pub struct OSPFConfig {
    pub passive_interfaces: Vec<String>,
    pub distance: Option<u32>,
    pub default_information_originate: bool,
    pub router_id: Option<String>,
    pub areas: Vec<(String, AreaConfig)>,
    pub networks: Vec<(String, u32)>,
    pub neighbors: Vec<(Ipv4Address, Option<u32>)>,
    pub process_id: Option<u32>,
}

impl OSPFConfig {
    /// An OSPF configuration with nothing set.
    pub fn new() -> (r: OSPFConfig)
        ensures
            r.passive_interfaces@.len() == 0,
            r.distance is None,
            !r.default_information_originate,
            r.router_id is None,
            r.areas@.len() == 0,
            r.networks@.len() == 0,
            r.neighbors@.len() == 0,
            r.process_id is None,
    {
        OSPFConfig {
            passive_interfaces: Vec::new(),
            distance: None,
            default_information_originate: false,
            router_id: None,
            areas: Vec::new(),
            networks: Vec::new(),
            neighbors: Vec::new(),
            process_id: None,
        }
    }
}

/// One rule of an access control list.
#[derive(Clone, Debug)]
pub struct AclEntry {
    pub action: String,
    pub source: String,
    pub destination: String,
    pub protocol: Option<String>,
    pub matches: Option<u32>,
    pub source_operator: Option<String>,
    pub source_port: Option<String>,
    pub destination_operator: Option<String>,
    pub destination_port: Option<String>,
}

/// An access control list: its number or name and its rules in order.
#[derive(Clone, Debug)]
pub struct AccessControlList {
    pub number_or_name: String,
    pub entries: Vec<AclEntry>,
}

/// The dotted-quad text of an address.
pub open spec fn ipv4_text(a: Ipv4Address) -> Seq<char> {
    decimal(a.a as nat) + "."@ + decimal(a.b as nat) + "."@ + decimal(a.c as nat) + "."@ + decimal(
        a.d as nat,
    )
}

/// Writes an address in dotted-quad form.
pub fn ipv4_string(a: Ipv4Address) -> (r: String)
    ensures
        r@ == ipv4_text(a),
{
    decimal_string(a.a as u64).concat(".").concat(decimal_string(a.b as u64).as_str()).concat(
        ".",
    ).concat(decimal_string(a.c as u64).as_str()).concat(".").concat(
        decimal_string(a.d as u64).as_str(),
    )
}

/// The lines that describe an interface, in the layout of `ifconfig`.
pub open spec fn interface_text(name: Seq<char>, c: InterfaceConfig) -> Seq<Seq<char>> {
    seq![
        name + ": flags=4163"@ + flags_text(views(c.flags@), c.is_up) + " mtu "@ + decimal(
            c.mtu as nat,
        ),
        "        inet "@ + ipv4_text(c.ip_address) + " netmask "@ + ipv4_text(c.netmask)
            + " broadcast "@ + ipv4_text(c.broadcast),
        "        ether "@ + c.mac_address@ + " txqueuelen 1000 (Ethernet)"@,
    ]
}

/// Describes an interface, in the layout of `ifconfig`.
pub fn interface_lines(name: &str, config: &InterfaceConfig) -> (r: Vec<String>)
    ensures
        views(r@) == interface_text(name@, *config),
{
    let first = name.to_owned().concat(": flags=4163").concat(format_flags(config).as_str()).concat(
        " mtu ",
    ).concat(decimal_string(config.mtu as u64).as_str());
    let second = "        inet ".to_owned().concat(ipv4_string(config.ip_address).as_str()).concat(
        " netmask ",
    ).concat(ipv4_string(config.netmask).as_str()).concat(" broadcast ").concat(
        ipv4_string(config.broadcast).as_str(),
    );
    let third = "        ether ".to_owned().concat(config.mac_address.as_str()).concat(
        " txqueuelen 1000 (Ethernet)",
    );
    let r = vec![first, second, third];
    proof {
        assert(views(r@) =~= interface_text(name@, *config));
    }
    r
}

/// Whether a file name ends in `.yaml`.
pub open spec fn is_yaml_name(s: Seq<char>) -> bool {
    s.len() >= 5 && s.skip(s.len() - 5) == ".yaml"@
}

/// The names that end in `.yaml`, in order.
pub open spec fn yaml_names(s: Seq<Seq<char>>) -> Seq<Seq<char>>
    decreases s.len(),
{
    if s.len() == 0 {
        Seq::empty()
    } else {
        yaml_names(s.drop_last()) + (if is_yaml_name(s.last()) {
            seq![s.last()]
        } else {
            Seq::empty()
        })
    }
}

fn is_yaml(s: &str) -> (r: bool)
    ensures
        r == is_yaml_name(s@),
{
    let n = s.unicode_len();
    if n < 5 {
        return false;
    }
    let tail = s.substring_char(n - 5, n);
    proof {
        assert(tail@ =~= s@.skip(n - 5));
    }
    str_eq(tail, ".yaml")
}

/// The Netplan configuration files among the names of a directory's entries, in order.
pub fn netplan_files(names: &Vec<String>) -> (r: Vec<String>)
    ensures
        views(r@) == yaml_names(views(names@)),
{
    let mut out: Vec<String> = Vec::new();
    let mut i: usize = 0;
    while i < names.len()
        invariant
            i <= names@.len(),
            views(out@) == yaml_names(views(names@).take(i as int)),
        decreases names@.len() - i,
    {
        proof {
            assert(views(names@).take(i + 1).drop_last() =~= views(names@).take(i as int));
            assert(views(names@)[i as int] == names@[i as int]@);
        }
        let ghost before = views(out@);
        if is_yaml(names[i].as_str()) {
            out.push(names[i].clone());
            proof {
                assert(views(out@) =~= before + seq![names@[i as int]@]);
            }
        } else {
            proof {
                assert(views(out@) =~= before + Seq::<Seq<char>>::empty());
            }
        }
        i = i + 1;
    }
    proof {
        assert(views(names@).take(names@.len() as int) =~= views(names@));
    }
    out
}

/// The Netplan file to edit: the first configuration file, or `None` where there is none.
pub fn netplan_choice(names: &Vec<String>) -> (r: Option<String>)
    ensures
        yaml_names(views(names@)).len() == 0 <==> r is None,
        r matches Some(f) ==> f@ == yaml_names(views(names@))[0],
{
    let files = netplan_files(names);
    if files.len() == 0 {
        None
    } else {
        proof {
            assert(views(files@)[0] == files@[0]@);
        }
        Some(files[0].clone())
    }
}

} // verus!
