//! The endpoint injector: the gateway-owned endpoint slice and the
//! label patches that insert the gateway into, or remove it from, the
//! platform's service routing.
//!
//! Injection adds the platform routing label to the gateway-owned
//! slices of the service, ejection removes it again. Both are JSON
//! patches against a slice's label object; the routing label key
//! contains a slash, so its JSON pointer must be escaped.

use vstd::prelude::*;

use crate::labels::{labels_view, service_label_key, service_label_key_str, gateway_label_key, gateway_label_key_str, spec_add_label, spec_has_key, spec_remove_label, Label, LabelView, lemma_label_round_trip};

verus! {

/// A character as it appears inside a JSON pointer token: `~` becomes
/// `~0` and `/` becomes `~1`; every other character stands for itself.
pub open spec fn spec_escaped_char(c: char) -> Seq<char> {
    if c == '~' {
        seq!['~', '0']
    } else if c == '/' {
        seq!['~', '1']
    } else {
        seq![c]
    }
}

/// A string escaped for use as one JSON pointer token.
pub open spec fn spec_escape(s: Seq<char>) -> Seq<char>
    decreases s.len(),
{
    if s.len() == 0 {
        Seq::<char>::empty()
    } else {
        spec_escaped_char(s[0]) + spec_escape(s.drop_first())
    }
}

/// Escaping a string extended by one character appends that
/// character's escape.
proof fn lemma_escape_snoc(s: Seq<char>, c: char)
    ensures
        spec_escape(s.push(c)) == spec_escape(s) + spec_escaped_char(c),
    decreases s.len(),
{
    if s.len() == 0 {
        assert(s.push(c)[0] == c);
        assert(s.push(c).drop_first() =~= s);
        assert(spec_escape(s.push(c)) =~= spec_escape(s) + spec_escaped_char(c));
    } else {
        assert(s.push(c)[0] == s[0]);
        assert(s.push(c).drop_first() =~= s.drop_first().push(c));
        lemma_escape_snoc(s.drop_first(), c);
        assert(spec_escaped_char(s[0]) + (spec_escape(s.drop_first()) + spec_escaped_char(c)) =~= (
        spec_escaped_char(s[0]) + spec_escape(s.drop_first())) + spec_escaped_char(c));
    }
}

/// Escape a string for use as one JSON pointer token: `~` becomes
/// `~0` and `/` becomes `~1`.
pub fn escape_pointer_token(s: &str) -> (r: String)
    ensures
        r@ == spec_escape(s@),
{
    let n = s.unicode_len();
    let mut r = String::new();
    let mut i: usize = 0;
    proof {
        assert(s@.take(0) =~= Seq::<char>::empty());
    }
    while i < n
        invariant
            n == s@.len(),
            0 <= i <= n,
            r@ == spec_escape(s@.take(i as int)),
        decreases n - i,
    {
        let c = s.get_char(i);
        proof {
            lemma_escape_snoc(s@.take(i as int), s@[i as int]);
            assert(s@.take(i as int + 1) =~= s@.take(i as int).push(s@[i as int]));
        }
        if c == '~' {
            r.append("~0");
            proof {
                reveal_strlit("~0");
                assert("~0"@ =~= spec_escaped_char('~'));
            }
        } else if c == '/' {
            r.append("~1");
            proof {
                reveal_strlit("~1");
                assert("~1"@ =~= spec_escaped_char('/'));
            }
        } else {
            let piece = s.substring_char(i, i + 1);
            proof {
                assert(piece@ =~= spec_escaped_char(s@[i as int]));
            }
            r.append(piece);
        }
        i += 1;
    }
    proof {
        assert(s@.take(n as int) =~= s@);
    }
    r
}

/// The JSON pointer of a label key inside a slice's metadata.
pub open spec fn spec_label_pointer(key: Seq<char>) -> Seq<char> {
    "/metadata/labels/"@ + spec_escape(key)
}

/// The JSON pointer of a label key inside a slice's metadata: the
/// key escaped and placed under `/metadata/labels/`.
pub fn label_pointer(key: &str) -> (r: String)
    ensures
        r@ == spec_label_pointer(key@),
{
    let mut r = String::from_str("/metadata/labels/");
    let esc = escape_pointer_token(key);
    r.append(esc.as_str());
    r
}

/// One JSON patch operation against a slice's label object.
#[derive(Debug)]
pub enum LabelPatch {
    /// Add the label at `path` with value `value`, replacing any
    /// previous value.
    Add { path: String, value: String },
    /// Remove the label at `path`.
    Remove { path: String },
}

/// The patch injection sends: add the platform routing label, bound to
/// the service's name, at its escaped pointer.
pub fn inject_patch(svc_name: &String) -> (p: LabelPatch)
    ensures
        p matches LabelPatch::Add { path, value } && path@ == spec_label_pointer(
            service_label_key(),
        ) && value@ == svc_name@,
{
    let key = service_label_key_str();
    let path = label_pointer(key.as_str());
    LabelPatch::Add { path, value: svc_name.clone() }
}

/// The patch ejection sends: remove the platform routing label at its
/// escaped pointer.
pub fn eject_patch() -> (p: LabelPatch)
    ensures
        p matches LabelPatch::Remove { path } && path@ == spec_label_pointer(service_label_key()),
{
    let key = service_label_key_str();
    let path = label_pointer(key.as_str());
    LabelPatch::Remove { path }
}

/// Label round trip for the routing label: injecting into a slice that
/// does not carry the platform routing label and then ejecting leaves
/// the slice's label set exactly as it was.
pub proof fn lemma_inject_eject_round_trip(ls: Seq<LabelView>, svc: Seq<char>)
    requires
        !spec_has_key(ls, service_label_key()),
    ensures
        spec_remove_label(spec_add_label(ls, service_label_key(), svc), service_label_key()) == ls,
{
    lemma_label_round_trip(ls, service_label_key(), svc);
}

/// A decimal digit.
pub open spec fn is_dec_digit(c: char) -> bool {
    48 <= c as u32 <= 57
}

/// The numeric value of a decimal digit.
pub open spec fn digit_value(c: char) -> int {
    c as u32 - 48
}

/// The numeric value of a one- to three-digit octet.
pub open spec fn spec_octet_value(t: Seq<char>) -> int {
    if t.len() == 1 {
        digit_value(t[0])
    } else if t.len() == 2 {
        10 * digit_value(t[0]) + digit_value(t[1])
    } else {
        100 * digit_value(t[0]) + 10 * digit_value(t[1]) + digit_value(t[2])
    }
}

/// A dotted-quad octet: one to three decimal digits, no leading zero,
/// value at most 255.
pub open spec fn is_octet(t: Seq<char>) -> bool {
    &&& 1 <= t.len() <= 3
    &&& (forall|i: int| 0 <= i < t.len() ==> is_dec_digit(t[i]))
    &&& (t.len() > 1 ==> t[0] != '0')
    &&& spec_octet_value(t) <= 255
}

/// `s` is `n` octets separated by dots: an octet alone, or an octet up
/// to the first dot followed by `n - 1` further dot-separated octets.
pub open spec fn spec_ipv4_groups(s: Seq<char>, n: nat) -> bool
    decreases n,
{
    if n <= 1 {
        is_octet(s)
    } else {
        exists|i: int|
            {
                &&& 0 <= i < s.len()
                &&& s[i] == '.'
                &&& (forall|j: int| 0 <= j < i ==> s[j] != '.')
                &&& is_octet(s.take(i))
                &&& spec_ipv4_groups(s.skip(i + 1), (n - 1) as nat)
            }
    }
}

/// A textual IPv4 address: four dot-separated octets in the strict
/// dotted-quad form (no leading zeros, each octet at most 255).
pub open spec fn spec_is_ipv4(s: Seq<char>) -> bool {
    spec_ipv4_groups(s, 4)
}

/// The first dot of `s` at or after `from`.
fn find_dot(s: &str, from: usize) -> (r: Option<usize>)
    requires
        from <= s@.len(),
    ensures
        match r {
            Some(i) => {
                &&& from <= i < s@.len()
                &&& s@[i as int] == '.'
                &&& (forall|j: int| from <= j < i ==> s@[j] != '.')
            },
            None => forall|j: int| from <= j < s@.len() ==> s@[j] != '.',
        },
{
    let n = s.unicode_len();
    let mut i: usize = from;
    while i < n
        invariant
            n == s@.len(),
            from <= i <= n,
            forall|j: int| from <= j < i ==> s@[j] != '.',
        decreases n - i,
    {
        if s.get_char(i) == '.' {
            return Some(i);
        }
        i += 1;
    }
    None
}

/// Whether `s` between `from` and `to` is a dotted-quad octet.
fn check_octet(s: &str, from: usize, to: usize) -> (b: bool)
    requires
        from <= to <= s@.len(),
    ensures
        b == is_octet(s@.subrange(from as int, to as int)),
{
    let ghost t = s@.subrange(from as int, to as int);
    let len = to - from;
    if len < 1 || len > 3 {
        return false;
    }
    let d0 = s.get_char(from) as u32;
    proof {
        assert(t[0] == s@[from as int]);
    }
    if d0 < 48 || d0 > 57 {
        proof {
            assert(!is_dec_digit(t[0]));
        }
        return false;
    }
    if len == 1 {
        proof {
            assert forall|i: int| 0 <= i < t.len() implies is_dec_digit(t[i]) by {
                assert(t[i] == t[0]);
            }
            assert(spec_octet_value(t) == digit_value(t[0]));
        }
        return true;
    }
    if d0 == 48 {
        proof {
            assert(t[0] == '0') by {
                assert(t[0] as u32 == 48);
            }
        }
        return false;
    }
    let d1 = s.get_char(from + 1) as u32;
    proof {
        assert(t[1] == s@[from as int + 1]);
    }
    if d1 < 48 || d1 > 57 {
        proof {
            assert(!is_dec_digit(t[1]));
        }
        return false;
    }
    if len == 2 {
        proof {
            assert forall|i: int| 0 <= i < t.len() implies is_dec_digit(t[i]) by {
                assert(i == 0 || i == 1);
            }
        }
        return true;
    }
    let d2 = s.get_char(from + 2) as u32;
    proof {
        assert(t[2] == s@[from as int + 2]);
    }
    if d2 < 48 || d2 > 57 {
        proof {
            assert(!is_dec_digit(t[2]));
        }
        return false;
    }
    let value = 100 * (d0 - 48) + 10 * (d1 - 48) + (d2 - 48);
    proof {
        assert forall|i: int| 0 <= i < t.len() implies is_dec_digit(t[i]) by {
            assert(i == 0 || i == 1 || i == 2);
        }
        assert(spec_octet_value(t) == 100 * digit_value(t[0]) + 10 * digit_value(t[1])
            + digit_value(t[2]));
    }
    value <= 255
}

/// Whether `s` is a textual IPv4 address in strict dotted-quad form.
pub fn is_ipv4_address(s: &str) -> (b: bool)
    ensures
        b == spec_is_ipv4(s@),
{
    let n = s.unicode_len();
    let d1 = match find_dot(s, 0) {
        None => {
            return false;
        },
        Some(i) => i,
    };
    if !check_octet(s, 0, d1) {
        proof {
            assert(s@.subrange(0, d1 as int) =~= s@.take(d1 as int));
        }
        return false;
    }
    let d2 = match find_dot(s, d1 + 1) {
        None => {
            proof {
                lemma_groups_need_dot(s@, d1 as int, 3);
            }
            return false;
        },
        Some(i) => i,
    };
    let d3 = match find_dot(s, d2 + 1) {
        None => {
            proof {
                let rest1 = s@.skip(d1 as int + 1);
                assert(rest1[d2 - d1 - 1] == s@[d2 as int]);
                assert forall|j: int| 0 <= j < d2 - d1 - 1 implies rest1[j] != '.' by {
                    assert(rest1[j] == s@[d1 as int + 1 + j]);
                }
                assert forall|j: int| d2 - d1 - 1 < j < rest1.len() implies rest1[j] != '.' by {
                    assert(rest1[j] == s@[d1 as int + 1 + j]);
                }
                lemma_groups_need_dot(rest1, d2 - d1 - 1, 2);
                lemma_first_dot_pins_group(s@, d1 as int, 4);
            }
            return false;
        },
        Some(i) => i,
    };
    let seg2 = check_octet(s, d1 + 1, d2);
    let seg3 = check_octet(s, d2 + 1, d3);
    let seg4 = check_octet(s, d3 + 1, n);
    proof {
        let rest1 = s@.skip(d1 as int + 1);
        let rest2 = s@.skip(d2 as int + 1);
        assert(rest1[d2 - d1 - 1] == s@[d2 as int]);
        assert forall|j: int| 0 <= j < d2 - d1 - 1 implies rest1[j] != '.' by {
            assert(rest1[j] == s@[d1 as int + 1 + j]);
        }
        assert(rest2[d3 - d2 - 1] == s@[d3 as int]);
        assert forall|j: int| 0 <= j < d3 - d2 - 1 implies rest2[j] != '.' by {
            assert(rest2[j] == s@[d2 as int + 1 + j]);
        }
        lemma_first_dot_pins_group(s@, d1 as int, 4);
        lemma_skip_skip(s@, d1 as int + 1, d2 as int + 1);
        lemma_first_dot_pins_group(rest1, d2 - d1 - 1, 3);
        lemma_skip_skip(s@, d2 as int + 1, d3 as int + 1);
        lemma_first_dot_pins_group(rest2, d3 - d2 - 1, 2);
        assert(s@.take(d1 as int) =~= s@.subrange(0, d1 as int));
        assert(rest1.take(d2 - d1 - 1) =~= s@.subrange(d1 as int + 1, d2 as int));
        assert(rest2.take(d3 - d2 - 1) =~= s@.subrange(d2 as int + 1, d3 as int));
        assert(rest2.skip(d3 - d2) =~= s@.subrange(d3 as int + 1, n as int));
        assert(spec_ipv4_groups(rest2.skip(d3 - d2), 1nat) == is_octet(rest2.skip(d3 - d2)));
    }
    seg2 && seg3 && seg4
}

/// Splitting at the first dot is the only way to satisfy
/// `spec_ipv4_groups` with more than one group: the existential's
/// witness is exactly the first dot of `s`.
proof fn lemma_first_dot_pins_group(s: Seq<char>, d: int, n: nat)
    requires
        n >= 2,
        0 <= d < s.len(),
        s[d] == '.',
        forall|j: int| 0 <= j < d ==> s[j] != '.',
    ensures
        spec_ipv4_groups(s, n) == (is_octet(s.take(d)) && spec_ipv4_groups(
            s.skip(d + 1),
            (n - 1) as nat,
        )),
{
    if is_octet(s.take(d)) && spec_ipv4_groups(s.skip(d + 1), (n - 1) as nat) {
        assert(spec_ipv4_groups(s, n));
    }
    if spec_ipv4_groups(s, n) {
        let i = choose|i: int|
            {
                &&& 0 <= i < s.len()
                &&& s[i] == '.'
                &&& (forall|j: int| 0 <= j < i ==> s[j] != '.')
                &&& is_octet(s.take(i))
                &&& spec_ipv4_groups(s.skip(i + 1), (n - 1) as nat)
            };
        assert(i == d);
    }
}

/// With more than one group left, a remainder without any dot cannot
/// satisfy `spec_ipv4_groups` past the first split.
proof fn lemma_groups_need_dot(s: Seq<char>, d: int, n: nat)
    requires
        n >= 2,
        0 <= d < s.len(),
        s[d] == '.',
        forall|j: int| 0 <= j < d ==> s[j] != '.',
        forall|j: int| d < j < s.len() ==> s[j] != '.',
    ensures
        !spec_ipv4_groups(s, n + 1),
{
    lemma_first_dot_pins_group(s, d, n + 1);
    if spec_ipv4_groups(s.skip(d + 1), n) {
        let rest = s.skip(d + 1);
        assert forall|j: int| 0 <= j < rest.len() implies rest[j] != '.' by {
            assert(rest[j] == s[d + 1 + j]);
        }
        let i = choose|i: int|
            {
                &&& 0 <= i < rest.len()
                &&& rest[i] == '.'
                &&& (forall|j: int| 0 <= j < i ==> rest[j] != '.')
                &&& is_octet(rest.take(i))
                &&& spec_ipv4_groups(rest.skip(i + 1), (n - 1) as nat)
            };
    }
}

/// Skipping twice from the front is skipping once by the sum.
proof fn lemma_skip_skip(s: Seq<char>, a: int, b: int)
    requires
        0 <= a <= b <= s.len(),
    ensures
        s.skip(a).skip(b - a) =~= s.skip(b),
{
}

/// This pod's identity, as the platform reports it. The fields that
/// the platform may omit are optional; the slice cannot be built
/// without them.
#[derive(Debug)]
pub struct PodIdentity {
    pub name: String,
    pub namespace: Option<String>,
    pub uid: Option<String>,
    pub pod_ips: Option<Vec<String>>,
}

/// Missing pod identity; fatal at startup when injection is enabled.
#[derive(Clone, Copy, Debug, PartialEq, Eq, Structural)]
pub enum BootstrapError {
    /// The pod reports no UID.
    MissingUid,
    /// The pod reports no namespace.
    MissingNamespace,
    /// The pod reports no addresses.
    MissingPodIps,
}

/// The gateway-owned endpoint slice, as plain values: everything the
/// created slice carries that the gateway decides.
#[derive(Debug)]
pub struct GatewaySliceSpec {
    /// The platform completes this prefix to a fresh slice name.
    pub generate_name: String,
    pub namespace: String,
    /// The routing label and the ownership label, both bound to the
    /// service's name.
    pub labels: Vec<Label>,
    /// The owning pod: the slice is removed with it.
    pub owner_name: String,
    pub owner_uid: String,
    /// The pod's IPv4 addresses; the slice routes to these.
    pub addresses: Vec<String>,
    /// The resolved service port the slice advertises.
    pub port_name: String,
    pub port_number: u16,
}

/// The IPv4 addresses among `ips`, in order.
pub open spec fn spec_ipv4_of(ips: Seq<String>) -> Seq<String>
    decreases ips.len(),
{
    if ips.len() == 0 {
        Seq::<String>::empty()
    } else if spec_is_ipv4(ips[0]@) {
        seq![ips[0]] + spec_ipv4_of(ips.drop_first())
    } else {
        spec_ipv4_of(ips.drop_first())
    }
}

/// Keep the addresses that are textual IPv4 addresses.
fn ipv4_addresses(ips: &Vec<String>) -> (r: Vec<String>)
    ensures
        r@ == spec_ipv4_of(ips@),
{
    let mut r: Vec<String> = Vec::new();
    let mut i: usize = 0;
    proof {
        assert(ips@.skip(0) =~= ips@);
        assert(r@ + spec_ipv4_of(ips@) =~= spec_ipv4_of(ips@));
    }
    while i < ips.len()
        invariant
            0 <= i <= ips@.len(),
            r@ + spec_ipv4_of(ips@.skip(i as int)) == spec_ipv4_of(ips@),
        decreases ips@.len() - i,
    {
        proof {
            assert(ips@.skip(i as int).drop_first() =~= ips@.skip(i as int + 1));
            assert(ips@.skip(i as int)[0] == ips@[i as int]);
        }
        let ghost prev = r@;
        if is_ipv4_address(ips[i].as_str()) {
            r.push(ips[i].clone());
            proof {
                assert(prev.push(ips@[i as int]) + spec_ipv4_of(ips@.skip(i as int + 1)) =~= prev
                    + (seq![ips@[i as int]] + spec_ipv4_of(ips@.skip(i as int + 1))));
            }
        }
        i += 1;
    }
    proof {
        assert(ips@.skip(i as int) =~= Seq::<String>::empty());
        assert(r@ + Seq::<String>::empty() =~= r@);
    }
    r
}

/// What the built slice must look like for a pod whose identity is
/// complete.
pub open spec fn gateway_slice_ok(
    g: GatewaySliceSpec,
    pod_name: Seq<char>,
    ns: String,
    uid: String,
    ips: Seq<String>,
    svc: Seq<char>,
    port_name: String,
    port_number: u16,
) -> bool {
    &&& g.generate_name@ == svc + "-sero-"@
    &&& g.namespace == ns
    &&& labels_view(g.labels@) == seq![
        LabelView { key: service_label_key(), value: svc },
        LabelView { key: gateway_label_key(), value: svc },
    ]
    &&& g.owner_name@ == pod_name
    &&& g.owner_uid == uid
    &&& g.addresses@ == spec_ipv4_of(ips)
    &&& g.port_name == port_name
    &&& g.port_number == port_number
}

/// Build the gateway-owned endpoint slice for this pod: one endpoint
/// holding the pod's IPv4 addresses, one port entry for the resolved
/// service port, the routing and ownership labels, and an owner
/// reference to the pod. Identity the platform did not report is a
/// bootstrap error.
pub fn build_gateway_slice(
    pod: &PodIdentity,
    svc_name: &String,
    port_name: &String,
    port_number: u16,
) -> (r: Result<GatewaySliceSpec, BootstrapError>)
    ensures
        match (pod.uid, pod.namespace, pod.pod_ips) {
            (None, _, _) => r == Err::<GatewaySliceSpec, BootstrapError>(
                BootstrapError::MissingUid,
            ),
            (Some(_), None, _) => r == Err::<GatewaySliceSpec, BootstrapError>(
                BootstrapError::MissingNamespace,
            ),
            (Some(_), Some(_), None) => r == Err::<GatewaySliceSpec, BootstrapError>(
                BootstrapError::MissingPodIps,
            ),
            (Some(uid), Some(ns), Some(ips)) => r matches Ok(g) && gateway_slice_ok(
                g,
                pod.name@,
                ns,
                uid,
                ips@,
                svc_name@,
                *port_name,
                port_number,
            ),
        },
{
    match (&pod.uid, &pod.namespace, &pod.pod_ips) {
        (None, _, _) => Err(BootstrapError::MissingUid),
        (Some(_), None, _) => Err(BootstrapError::MissingNamespace),
        (Some(_), Some(_), None) => Err(BootstrapError::MissingPodIps),
        (Some(uid), Some(ns), Some(ips)) => {
            let mut labels: Vec<Label> = Vec::new();
            labels.push(Label { key: service_label_key_str(), value: svc_name.clone() });
            labels.push(Label { key: gateway_label_key_str(), value: svc_name.clone() });
            proof {
                assert(labels_view(labels@) =~= seq![
                    LabelView { key: service_label_key(), value: svc_name@ },
                    LabelView { key: gateway_label_key(), value: svc_name@ },
                ]);
            }
            let g = GatewaySliceSpec {
                generate_name: svc_name.clone().concat("-sero-"),
                namespace: ns.clone(),
                labels,
                owner_name: pod.name.clone(),
                owner_uid: uid.clone(),
                addresses: ipv4_addresses(ips),
                port_name: port_name.clone(),
                port_number,
            };
            Ok(g)
        },
    }
}

} // verus!
