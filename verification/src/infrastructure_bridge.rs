//! Bridge between network devices and infrastructure records: the
//! metadata a device's resource carries and a device read back from it,
//! the text form of a device type read back, and the errors of a
//! conversion.

use vstd::prelude::*;
use crate::value_objects::{DeviceType, device_type_text, MacAddress, mac_text, parse_mac_spec, law_mac_text_reads_back};
use crate::aggregates::{NetworkDeviceAggregate, DeviceView, discovered_view, state_name};
use crate::ids::uuid_text;
use crate::ip::{IpAddress, ip_text, ipv4_text};
use crate::parse::{parse_ipv4, parse_ipv4_spec};
use crate::text::{starts_with_seq, ends_with_seq, str_starts_with, str_ends_with, chars_of, owned, push_str};
use crate::params::{same_text, string_of};

verus! {

/// Error of a conversion to an infrastructure record.
#[derive(Debug)]
pub enum BridgeError {
    InvalidHostname(String),
    InvalidResourceId(String),
    UnsupportedDeviceType(String),
}

/// Text of a bridge error.
pub open spec fn bridge_error_text(e: BridgeError) -> Seq<char> {
    match e {
        BridgeError::InvalidHostname(m) => "Invalid hostname: "@ + m@,
        BridgeError::InvalidResourceId(m) => "Invalid resource ID: "@ + m@,
        BridgeError::UnsupportedDeviceType(m) => "Conversion not supported for device type: "@ + m@,
    }
}

impl BridgeError {
    /// The error's text.
    pub fn to_string(&self) -> (s: String)
        ensures
            s@ == bridge_error_text(*self),
    {
        let (mut s, m) = match self {
            BridgeError::InvalidHostname(m) => (owned("Invalid hostname: "), m),
            BridgeError::InvalidResourceId(m) => (owned("Invalid resource ID: "), m),
            BridgeError::UnsupportedDeviceType(m) => (owned("Conversion not supported for device type: "), m),
        };
        push_str(&mut s, m.as_str());
        s
    }
}

/// The model named by a device type's text: what stands between
/// `Generic(` and `)`, or the whole text.
pub open spec fn generic_model(s: Seq<char>) -> Seq<char> {
    if starts_with_seq(s, "Generic("@) && ends_with_seq(s, ")"@) {
        s.subrange("Generic("@.len() as int, s.len() - 1)
    } else {
        s
    }
}

/// Reads a device type from its text: the three named kinds, or a
/// generic device whose model is the text inside `Generic(..)`, or the
/// whole text.
pub fn parse_device_type(s: &str) -> (t: DeviceType)
    ensures
        s@ == "Gateway"@ ==> t == DeviceType::Gateway,
        s@ == "Switch"@ ==> t == DeviceType::Switch,
        s@ == "AccessPoint"@ ==> t == DeviceType::AccessPoint,
        s@ != "Gateway"@ && s@ != "Switch"@ && s@ != "AccessPoint"@ ==> match t {
            DeviceType::Generic { model } => model@ == generic_model(s@),
            _ => false,
        },
        reads_as(t, s@),
{
    proof {
        reveal_strlit("Gateway");
        reveal_strlit("Switch");
        reveal_strlit("AccessPoint");
        assert("Gateway"@.len() == 7 && "Switch"@.len() == 6 && "AccessPoint"@.len() == 11);
    }
    if same_text(s, "Gateway") {
        DeviceType::Gateway
    } else if same_text(s, "Switch") {
        DeviceType::Switch
    } else if same_text(s, "AccessPoint") {
        DeviceType::AccessPoint
    } else if str_starts_with(s, "Generic(") && str_ends_with(s, ")") {
        let cs = chars_of(s);
        let p = chars_of("Generic(");
        proof {
            reveal_strlit("Generic(");
            reveal_strlit(")");
            assert(s@.subrange(0, 8)[7] == '(');
            assert(s@.subrange(s@.len() - 1, s@.len() as int)[0] == ')');
        }
        DeviceType::Generic { model: string_of(&cs, p.len(), cs.len() - 1) }
    } else {
        DeviceType::Generic { model: owned(s) }
    }
}

/// The text of a device type reads back as that device type: a named kind
/// gives its name, and a generic device's text is none of the names and
/// gives back its model.
pub proof fn law_device_type_text_reads_back(t: DeviceType)
    ensures
        match t {
            DeviceType::Gateway => device_type_text(t) == "Gateway"@,
            DeviceType::Switch => device_type_text(t) == "Switch"@,
            DeviceType::AccessPoint => device_type_text(t) == "AccessPoint"@,
            DeviceType::Generic { model } => {
                &&& device_type_text(t) != "Gateway"@
                &&& device_type_text(t) != "Switch"@
                &&& device_type_text(t) != "AccessPoint"@
                &&& generic_model(device_type_text(t)) == model@
            },
        },
{
    reveal_strlit("Generic(");
    reveal_strlit(")");
    reveal_strlit("Gateway");
    reveal_strlit("Switch");
    reveal_strlit("AccessPoint");
    if let DeviceType::Generic { model } = t {
        let s = device_type_text(t);
        assert(s[1] == 'e');
        assert("Gateway"@[1] == 'a');
        assert(s[0] == 'G');
        assert("Switch"@[0] == 'S');
        assert("AccessPoint"@[0] == 'A');
        assert(s.subrange(0, 8) =~= "Generic("@);
        assert(s.subrange(s.len() - 1, s.len() as int) =~= ")"@);
        assert(s.subrange(8, s.len() - 1) =~= model@);
    }
}

/// Whether a device type is what a text reads as: the three named kinds by
/// their names, or a generic device with the model the text names.
pub open spec fn reads_as(t: DeviceType, s: Seq<char>) -> bool {
    if s == "Gateway"@ {
        t == DeviceType::Gateway
    } else if s == "Switch"@ {
        t == DeviceType::Switch
    } else if s == "AccessPoint"@ {
        t == DeviceType::AccessPoint
    } else {
        t matches DeviceType::Generic { model } && model@ == generic_model(s)
    }
}

// ---------------------------------------------------------------------
// A device as an infrastructure resource's metadata, and back.

/// The texts of a list of name-text pairs.
pub open spec fn pairs_view(s: Seq<(String, String)>) -> Seq<(Seq<char>, Seq<char>)> {
    s.map_values(|p: (String, String)| (p.0@, p.1@))
}

/// The text of the first entry under a name.
pub open spec fn meta_lookup(m: Seq<(Seq<char>, Seq<char>)>, key: Seq<char>) -> Option<Seq<char>>
    decreases m.len(),
{
    if m.len() == 0 {
        None
    } else if m[0].0 == key {
        Some(m[0].1)
    } else {
        meta_lookup(m.drop_first(), key)
    }
}

proof fn lemma_meta_lookup_skip(m: Seq<(Seq<char>, Seq<char>)>, key: Seq<char>, k: int)
    requires
        0 <= k <= m.len(),
        forall|j: int| 0 <= j < k ==> (#[trigger] m[j]).0 != key,
    ensures
        meta_lookup(m, key) == meta_lookup(m.subrange(k, m.len() as int), key),
    decreases k,
{
    if k > 0 {
        assert(m.drop_first().subrange(k - 1, m.drop_first().len() as int) =~= m.subrange(k, m.len() as int));
        assert forall|j: int| 0 <= j < k - 1 implies (#[trigger] m.drop_first()[j]).0 != key by {
            assert(m.drop_first()[j] == m[j + 1]);
        }
        lemma_meta_lookup_skip(m.drop_first(), key, k - 1);
    } else {
        assert(m.subrange(0, m.len() as int) =~= m);
    }
}

/// The text under a name in a metadata list.
fn meta_get(m: &Vec<(String, String)>, key: &str) -> (r: Option<String>)
    ensures
        match meta_lookup(pairs_view(m@), key@) {
            Some(t) => r is Some && r.unwrap()@ == t,
            None => r is None,
        },
{
    let ghost pv = pairs_view(m@);
    let mut k: usize = 0;
    while k < m.len()
        invariant
            k <= m@.len(),
            pv == pairs_view(m@),
            forall|j: int| 0 <= j < k ==> (#[trigger] pv[j]).0 != key@,
        decreases m@.len() - k,
    {
        if same_text(m[k].0.as_str(), key) {
            proof {
                lemma_meta_lookup_skip(pv, key@, k as int);
                assert(pv.subrange(k as int, pv.len() as int)[0] == pv[k as int]);
            }
            return Some(m[k].1.clone());
        }
        k = k + 1;
    }
    proof {
        lemma_meta_lookup_skip(pv, key@, pv.len() as int);
        assert(pv.subrange(pv.len() as int, pv.len() as int).len() == 0);
    }
    None
}

/// The metadata a device's infrastructure resource carries, in order: its
/// MAC address, device type and state, then its vendor identifier and
/// address where it has them.
pub open spec fn resource_metadata_spec(v: DeviceView) -> Seq<(Seq<char>, Seq<char>)> {
    seq![
        ("mac_address"@, mac_text(v.mac@)),
        ("device_type"@, device_type_text(v.device_type)),
        ("device_state"@, state_name(v.state))
    ] + match v.vendor_id {
        Some(t) => seq![("vendor_id"@, t@)],
        None => Seq::empty(),
    } + match v.ip_address {
        Some(ip) => seq![("ip_address"@, ip_text(ip))],
        None => Seq::empty(),
    }
}

/// The metadata of a device's infrastructure resource.
pub fn resource_metadata(device: &NetworkDeviceAggregate) -> (m: Vec<(String, String)>)
    ensures
        pairs_view(m@) == resource_metadata_spec(device@),
{
    let mut m: Vec<(String, String)> = Vec::new();
    m.push((owned("mac_address"), device.mac().to_string()));
    m.push((owned("device_type"), device.device_type().to_string()));
    m.push((owned("device_state"), owned(device.state().name())));
    match device.vendor_id() {
        Some(t) => m.push((owned("vendor_id"), t.clone())),
        None => {}
    }
    match device.ip_address() {
        Some(ip) => m.push((owned("ip_address"), ip.to_string())),
        None => {}
    }
    assert(pairs_view(m@) =~= resource_metadata_spec(device@));
    m
}

/// The identifier text of a device's infrastructure resource: `net-` and
/// the device identifier.
pub fn resource_id_text(device: &NetworkDeviceAggregate) -> (s: String)
    ensures
        s@ == "net-"@ + uuid_text(device@.id.value),
{
    let mut s = owned("net-");
    push_str(&mut s, device.id().to_string().as_str());
    s
}

/// What metadata reads as: none without a readable MAC address; else the
/// address's octets, the device type's text (`Generic(Unknown)` when
/// missing), and the dotted-quad address where one is given and readable.
pub open spec fn metadata_reading(m: Seq<(Seq<char>, Seq<char>)>) -> Option<(Seq<u8>, Seq<char>, Option<IpAddress>)> {
    match meta_lookup(m, "mac_address"@) {
        None => None,
        Some(t) => match parse_mac_spec(t) {
            Err(_) => None,
            Ok(bytes) => Some((
                bytes,
                match meta_lookup(m, "device_type"@) {
                    Some(d) => d,
                    None => "Generic(Unknown)"@,
                },
                match meta_lookup(m, "ip_address"@) {
                    Some(a) => match parse_ipv4_spec(a) {
                        Some(x) => Some(IpAddress::V4(x)),
                        None => None,
                    },
                    None => None,
                },
            )),
        },
    }
}

/// A newly discovered device from an infrastructure resource's metadata:
/// none without a readable MAC address.
pub fn network_device_from_metadata(metadata: &Vec<(String, String)>) -> (r: Option<NetworkDeviceAggregate>)
    ensures
        match metadata_reading(pairs_view(metadata@)) {
            None => r is None,
            Some((bytes, type_text, ip)) => r is Some && {
                let d = r.unwrap();
                &&& d.wf()
                &&& d@ == discovered_view(d@.id, d@.mac, d@.device_type, ip)
                &&& d@.mac@ == bytes
                &&& reads_as(d@.device_type, type_text)
            },
        },
{
    let mac_text_value = match meta_get(metadata, "mac_address") {
        Some(t) => t,
        None => { return None; }
    };
    let mac = match MacAddress::parse(mac_text_value.as_str()) {
        Ok(m) => m,
        Err(_) => { return None; }
    };
    let type_text = match meta_get(metadata, "device_type") {
        Some(t) => t,
        None => owned("Generic(Unknown)"),
    };
    let device_type = parse_device_type(type_text.as_str());
    let ip_address = match meta_get(metadata, "ip_address") {
        Some(a) => match parse_ipv4(&chars_of(a.as_str())) {
            Some(x) => Some(IpAddress::V4(x)),
            None => None,
        },
        None => None,
    };
    Some(NetworkDeviceAggregate::new_discovered(mac, device_type, ip_address))
}

/// Looking up in two lists one after the other: the first list where it
/// has the name, else the second.
proof fn lemma_meta_lookup_concat(s: Seq<(Seq<char>, Seq<char>)>, t: Seq<(Seq<char>, Seq<char>)>, key: Seq<char>)
    ensures
        meta_lookup(s + t, key) == match meta_lookup(s, key) {
            Some(x) => Some(x),
            None => meta_lookup(t, key),
        },
    decreases s.len(),
{
    if s.len() == 0 {
        assert(s + t =~= t);
    } else {
        assert((s + t)[0] == s[0]);
        assert((s + t).drop_first() =~= s.drop_first() + t);
        lemma_meta_lookup_concat(s.drop_first(), t, key);
    }
}

/// The names of a resource's metadata differ from one another.
proof fn lemma_metadata_names()
    ensures
        "mac_address"@ != "device_type"@,
        "mac_address"@ != "ip_address"@,
        "device_type"@ != "device_state"@,
        "device_type"@ != "ip_address"@,
        "device_state"@ != "ip_address"@,
        "vendor_id"@ != "ip_address"@,
        "vendor_id"@ != "device_type"@,
        "vendor_id"@ != "mac_address"@,
{
    reveal_strlit("mac_address");
    reveal_strlit("device_type");
    reveal_strlit("device_state");
    reveal_strlit("vendor_id");
    reveal_strlit("ip_address");
    assert("mac_address"@[0] == 'm' && "device_type"@[0] == 'd' && "device_state"@[0] == 'd' && "vendor_id"@[0] == 'v'
        && "ip_address"@[0] == 'i');
    assert("device_type"@[7] == 't' && "device_state"@[7] == 's');
}

/// What the fixed first three entries of a resource's metadata give.
proof fn lemma_metadata_head(v: DeviceView, key: Seq<char>)
    requires
        key == "mac_address"@ || key == "device_type"@ || key == "ip_address"@,
    ensures
        meta_lookup(seq![
            ("mac_address"@, mac_text(v.mac@)),
            ("device_type"@, device_type_text(v.device_type)),
            ("device_state"@, state_name(v.state))
        ], key) == if key == "mac_address"@ {
            Some(mac_text(v.mac@))
        } else if key == "device_type"@ {
            Some(device_type_text(v.device_type))
        } else {
            None::<Seq<char>>
        },
{
    lemma_metadata_names();
    let h = seq![
        ("mac_address"@, mac_text(v.mac@)),
        ("device_type"@, device_type_text(v.device_type)),
        ("device_state"@, state_name(v.state))
    ];
    let h1 = h.drop_first();
    let h2 = h1.drop_first();
    let h3 = h2.drop_first();
    assert(h1[0] == h[1] && h2[0] == h[2]);
    assert(h3 =~= Seq::<(Seq<char>, Seq<char>)>::empty());
    assert(meta_lookup(h3, key) is None);
    if key == "mac_address"@ {
        assert(meta_lookup(h, key) == Some(mac_text(v.mac@)));
    } else if key == "device_type"@ {
        assert(meta_lookup(h, key) == meta_lookup(h1, key));
        assert(meta_lookup(h1, key) == Some(device_type_text(v.device_type)));
    } else {
        assert(meta_lookup(h, key) == meta_lookup(h1, key));
        assert(meta_lookup(h1, key) == meta_lookup(h2, key));
        assert(meta_lookup(h2, key) == meta_lookup(h3, key));
    }
}

/// A device's infrastructure metadata reads back as its MAC address, the
/// text of its device type (which reads as that type) and its address,
/// for a device without an address or with an IPv4 one.
pub proof fn law_metadata_reads_back(v: DeviceView)
    requires
        v.ip_address is None || v.ip_address.unwrap() is V4,
    ensures
        metadata_reading(resource_metadata_spec(v)) == Some((v.mac@, device_type_text(v.device_type), v.ip_address)),
        reads_as(v.device_type, device_type_text(v.device_type)),
{
    lemma_metadata_names();
    law_mac_text_reads_back(v.mac);
    law_device_type_text_reads_back(v.device_type);
    reveal_strlit("Gateway");
    reveal_strlit("Switch");
    reveal_strlit("AccessPoint");
    assert("Gateway"@.len() == 7 && "Switch"@.len() == 6 && "AccessPoint"@.len() == 11);
    let h = seq![
        ("mac_address"@, mac_text(v.mac@)),
        ("device_type"@, device_type_text(v.device_type)),
        ("device_state"@, state_name(v.state))
    ];
    let vs: Seq<(Seq<char>, Seq<char>)> = match v.vendor_id {
        Some(t) => seq![("vendor_id"@, t@)],
        None => Seq::empty(),
    };
    let ips: Seq<(Seq<char>, Seq<char>)> = match v.ip_address {
        Some(ip) => seq![("ip_address"@, ip_text(ip))],
        None => Seq::empty(),
    };
    let m = resource_metadata_spec(v);
    assert(m == h + vs + ips);
    lemma_metadata_head(v, "mac_address"@);
    lemma_metadata_head(v, "device_type"@);
    lemma_metadata_head(v, "ip_address"@);
    lemma_meta_lookup_concat(h + vs, ips, "mac_address"@);
    lemma_meta_lookup_concat(h, vs, "mac_address"@);
    lemma_meta_lookup_concat(h + vs, ips, "device_type"@);
    lemma_meta_lookup_concat(h, vs, "device_type"@);
    lemma_meta_lookup_concat(h + vs, ips, "ip_address"@);
    lemma_meta_lookup_concat(h, vs, "ip_address"@);
    assert(meta_lookup(vs, "ip_address"@) is None) by {
        lemma_metadata_names();
        assert(meta_lookup(Seq::<(Seq<char>, Seq<char>)>::empty(), "ip_address"@) is None);
        match v.vendor_id {
            Some(t) => {
                assert(vs[0].0 == "vendor_id"@);
                assert(vs.drop_first() =~= Seq::<(Seq<char>, Seq<char>)>::empty());
            }
            None => {}
        }
    }
    match v.ip_address {
        Some(ip) => {
            crate::parse::law_ipv4_text_reads_back(ip->V4_0);
            assert(ips.drop_first() =~= Seq::<(Seq<char>, Seq<char>)>::empty());
            assert(meta_lookup(ips, "ip_address"@) == Some(ip_text(ip)));
        }
        None => {}
    }
}

} // verus!
