//! The endpoint observer: a materialised view of the endpoint slices
//! labelled for the backing service, and the published count of
//! serving endpoints.
//!
//! Every watch event updates the cache; after each update the count is
//! recomputed from the whole cache and published if and only if it
//! changed. A slice contributes its serving endpoints only when it
//! advertises the resolved port name; slices carrying the gateway's
//! ownership label for the service count as gateway endpoints, all
//! others as workload endpoints.

use vstd::prelude::*;

use crate::labels::{gateway_label_key, gateway_label_key_str, label_value, labels_view, spec_label_value, Label};

verus! {

/// The published state: how many endpoints serve the workload and how
/// many serve the gateway itself.
#[derive(Clone, Copy, Debug, PartialEq, Eq, Structural)]
pub struct EndpointCount {
    pub workload: usize,
    pub gateway: usize,
}

impl Default for EndpointCount {
    /// Before any slice has been observed, nothing is serving.
    fn default() -> (c: EndpointCount)
        ensures
            c == (EndpointCount { workload: 0, gateway: 0 }),
    {
        EndpointCount { workload: 0, gateway: 0 }
    }
}

impl EndpointCount {
    /// True iff at least one workload endpoint is serving.
    pub fn backend_is_serving(&self) -> (b: bool)
        ensures
            b == (self.workload > 0),
    {
        self.workload > 0
    }

    /// True iff at least one gateway-owned endpoint is serving.
    pub fn sero_is_serving(&self) -> (b: bool)
        ensures
            b == (self.gateway > 0),
    {
        self.gateway > 0
    }
}

/// One endpoint of a slice, reduced to what the observer reads: its
/// `serving` condition.
#[derive(Clone, Copy, Debug)]
pub struct EndpointModel {
    pub serving: bool,
}

/// One port entry of a slice: its optional name.
#[derive(Clone, Debug)]
pub struct PortModel {
    pub name: Option<String>,
}

/// An observed endpoint slice, reduced to what classification reads:
/// its name (the cache key), its labels, its port list and its
/// endpoints.
#[derive(Debug)]
pub struct SliceModel {
    pub name: String,
    pub labels: Vec<Label>,
    pub ports: Option<Vec<PortModel>>,
    pub endpoints: Vec<EndpointModel>,
}

/// True when the port entry carries exactly the resolved port name.
pub open spec fn port_model_matches(p: PortModel, port: Seq<char>) -> bool {
    match p.name {
        Some(n) => n@ == port,
        None => false,
    }
}

/// True when a port list advertises the resolved port name.
pub open spec fn spec_lists_port(ports: Option<Vec<PortModel>>, port: Seq<char>) -> bool {
    match ports {
        Some(ps) => exists|i: int| 0 <= i < ps@.len() && port_model_matches(ps@[i], port),
        None => false,
    }
}

/// True when the slice advertises the resolved port name.
pub open spec fn slice_lists_port(s: SliceModel, port: Seq<char>) -> bool {
    spec_lists_port(s.ports, port)
}

/// True when the slice carries the gateway's ownership label for this
/// service.
pub open spec fn slice_is_gateway_owned(s: SliceModel, svc: Seq<char>) -> bool {
    spec_label_value(labels_view(s.labels@), gateway_label_key()) == Some(svc)
}

/// How many endpoints of the sequence report `serving`.
pub open spec fn spec_serving_in_slice(eps: Seq<EndpointModel>) -> nat
    decreases eps.len(),
{
    if eps.len() == 0 {
        0
    } else {
        (if eps[0].serving {
            1nat
        } else {
            0nat
        }) + spec_serving_in_slice(eps.drop_first())
    }
}

/// What one slice contributes to the workload count: its serving
/// endpoints, when it advertises the resolved port and is not owned by
/// the gateway.
pub open spec fn workload_contribution(s: SliceModel, svc: Seq<char>, port: Seq<char>) -> nat {
    if slice_lists_port(s, port) && !slice_is_gateway_owned(s, svc) {
        spec_serving_in_slice(s.endpoints@)
    } else {
        0
    }
}

/// What one slice contributes to the gateway count: its serving
/// endpoints, when it advertises the resolved port and is owned by the
/// gateway.
pub open spec fn gateway_contribution(s: SliceModel, svc: Seq<char>, port: Seq<char>) -> nat {
    if slice_lists_port(s, port) && slice_is_gateway_owned(s, svc) {
        spec_serving_in_slice(s.endpoints@)
    } else {
        0
    }
}

/// The number of serving workload endpoints over the whole cache.
pub open spec fn spec_workload_count(slices: Seq<SliceModel>, svc: Seq<char>, port: Seq<char>) -> nat
    decreases slices.len(),
{
    if slices.len() == 0 {
        0
    } else {
        workload_contribution(slices[0], svc, port) + spec_workload_count(
            slices.drop_first(),
            svc,
            port,
        )
    }
}

/// The number of serving gateway endpoints over the whole cache.
pub open spec fn spec_gateway_count(slices: Seq<SliceModel>, svc: Seq<char>, port: Seq<char>) -> nat
    decreases slices.len(),
{
    if slices.len() == 0 {
        0
    } else {
        gateway_contribution(slices[0], svc, port) + spec_gateway_count(
            slices.drop_first(),
            svc,
            port,
        )
    }
}

/// A mathematical count squeezed into a machine word: counts beyond
/// `usize::MAX` saturate.
pub open spec fn clamp_usize(n: nat) -> usize {
    if n > usize::MAX as nat {
        usize::MAX
    } else {
        n as usize
    }
}

/// Count the serving endpoints of one slice.
fn serving_in_slice(eps: &Vec<EndpointModel>) -> (n: usize)
    ensures
        n == clamp_usize(spec_serving_in_slice(eps@)),
        n <= eps@.len(),
{
    let mut n: usize = 0;
    let mut i: usize = 0;
    proof {
        assert(eps@.skip(0) =~= eps@);
    }
    while i < eps.len()
        invariant
            0 <= i <= eps@.len(),
            n <= i,
            n + spec_serving_in_slice(eps@.skip(i as int)) == spec_serving_in_slice(eps@),
        decreases eps@.len() - i,
    {
        proof {
            assert(eps@.skip(i as int).drop_first() =~= eps@.skip(i as int + 1));
            assert(eps@.skip(i as int)[0] == eps@[i as int]);
        }
        if eps[i].serving {
            n += 1;
        }
        i += 1;
    }
    proof {
        assert(eps@.skip(i as int) =~= Seq::<EndpointModel>::empty());
    }
    n
}

/// Whether the slice's port list names the resolved port.
fn lists_port(ports: &Option<Vec<PortModel>>, port_name: &String) -> (b: bool)
    ensures
        b == spec_lists_port(*ports, port_name@),
{
    match ports {
        None => false,
        Some(ps) => {
            let mut i: usize = 0;
            while i < ps.len()
                invariant
                    *ports == Some(*ps),
                    0 <= i <= ps@.len(),
                    forall|j: int| 0 <= j < i ==> !port_model_matches(ps@[j], port_name@),
                decreases ps@.len() - i,
            {
                match &ps[i].name {
                    Some(n) => {
                        if *n == *port_name {
                            proof {
                                let pp = (*ports)->Some_0;
                                assert(pp == *ps);
                                assert(port_model_matches(pp@[i as int], port_name@));
                                assert(spec_lists_port(*ports, port_name@));
                            }
                            return true;
                        }
                    },
                    None => {},
                }
                i += 1;
            }
            false
        },
    }
}

/// Add with saturation at `usize::MAX`.
fn sat_add(a: usize, b: usize) -> (r: usize)
    ensures
        r == clamp_usize(a as nat + b as nat),
{
    if a <= usize::MAX - b {
        a + b
    } else {
        usize::MAX
    }
}

/// Classify the whole cache: count serving endpoints on slices that
/// advertise the resolved port, split into workload-owned and
/// gateway-owned.
pub fn serving_endpoints(slices: &Vec<SliceModel>, svc_name: &String, port_name: &String) -> (c:
    EndpointCount)
    ensures
        c.workload == clamp_usize(spec_workload_count(slices@, svc_name@, port_name@)),
        c.gateway == clamp_usize(spec_gateway_count(slices@, svc_name@, port_name@)),
        (c.workload > 0) == (spec_workload_count(slices@, svc_name@, port_name@) > 0),
        (c.gateway > 0) == (spec_gateway_count(slices@, svc_name@, port_name@) > 0),
{
    let gkey = gateway_label_key_str();
    let mut workload: usize = 0;
    let mut gateway: usize = 0;
    let ghost mut w_true: nat = 0nat;
    let ghost mut g_true: nat = 0nat;
    let mut i: usize = 0;
    proof {
        assert(slices@.skip(0) =~= slices@);
    }
    while i < slices.len()
        invariant
            0 <= i <= slices@.len(),
            gkey@ == gateway_label_key(),
            w_true + spec_workload_count(slices@.skip(i as int), svc_name@, port_name@)
                == spec_workload_count(slices@, svc_name@, port_name@),
            g_true + spec_gateway_count(slices@.skip(i as int), svc_name@, port_name@)
                == spec_gateway_count(slices@, svc_name@, port_name@),
            workload == clamp_usize(w_true),
            gateway == clamp_usize(g_true),
        decreases slices@.len() - i,
    {
        proof {
            assert(slices@.skip(i as int).drop_first() =~= slices@.skip(i as int + 1));
            assert(slices@.skip(i as int)[0] == slices@[i as int]);
        }
        let s = &slices[i];
        if lists_port(&s.ports, port_name) {
            let serving = serving_in_slice(&s.endpoints);
            let owned = match label_value(&s.labels, &gkey) {
                Some(v) => *v == *svc_name,
                None => false,
            };
            if owned {
                gateway = sat_add(gateway, serving);
                proof {
                    lemma_clamp_add(g_true, spec_serving_in_slice(s.endpoints@));
                    g_true = g_true + spec_serving_in_slice(s.endpoints@);
                }
            } else {
                workload = sat_add(workload, serving);
                proof {
                    lemma_clamp_add(w_true, spec_serving_in_slice(s.endpoints@));
                    w_true = w_true + spec_serving_in_slice(s.endpoints@);
                }
            }
        }
        i += 1;
    }
    proof {
        assert(slices@.skip(i as int) =~= Seq::<SliceModel>::empty());
    }
    EndpointCount { workload, gateway }
}

/// Saturating addition of clamped counts agrees with clamping the
/// mathematical sum.
proof fn lemma_clamp_add(a: nat, b: nat)
    ensures
        clamp_usize(clamp_usize(a) as nat + clamp_usize(b) as nat) == clamp_usize(a + b),
{
}

/// One observed change of the slice cache: a slice was added or
/// modified, or a slice was deleted, named by its cache key.
pub enum SliceEvent {
    Applied(SliceModel),
    Deleted(String),
}

/// The cache after a slice was applied: the first slice of the same
/// name is replaced, or the slice is appended when none carries its
/// name.
pub open spec fn spec_apply_applied(slices: Seq<SliceModel>, s: SliceModel) -> Seq<SliceModel>
    decreases slices.len(),
{
    if slices.len() == 0 {
        seq![s]
    } else if slices[0].name@ == s.name@ {
        seq![s] + slices.drop_first()
    } else {
        seq![slices[0]] + spec_apply_applied(slices.drop_first(), s)
    }
}

/// The cache after a slice was deleted: the first slice of that name
/// is removed; a name the cache does not hold changes nothing.
pub open spec fn spec_apply_deleted(slices: Seq<SliceModel>, name: Seq<char>) -> Seq<SliceModel>
    decreases slices.len(),
{
    if slices.len() == 0 {
        Seq::<SliceModel>::empty()
    } else if slices[0].name@ == name {
        slices.drop_first()
    } else {
        seq![slices[0]] + spec_apply_deleted(slices.drop_first(), name)
    }
}

/// The cache after one watch event.
pub open spec fn spec_apply_event(slices: Seq<SliceModel>, ev: SliceEvent) -> Seq<SliceModel> {
    match ev {
        SliceEvent::Applied(s) => spec_apply_applied(slices, s),
        SliceEvent::Deleted(name) => spec_apply_deleted(slices, name@),
    }
}

/// Applying a slice whose name the cache holds first at `i` replaces
/// exactly that entry.
proof fn lemma_apply_applied_at(slices: Seq<SliceModel>, s: SliceModel, i: int)
    requires
        0 <= i < slices.len(),
        slices[i].name@ == s.name@,
        forall|j: int| 0 <= j < i ==> slices[j].name@ != s.name@,
    ensures
        spec_apply_applied(slices, s) == slices.update(i, s),
    decreases slices.len(),
{
    if i == 0 {
        assert(spec_apply_applied(slices, s) =~= slices.update(0, s));
    } else {
        assert(slices.drop_first()[i - 1].name@ == s.name@);
        assert forall|j: int| 0 <= j < i - 1 implies slices.drop_first()[j].name@ != s.name@ by {
            assert(slices.drop_first()[j] == slices[j + 1]);
        }
        lemma_apply_applied_at(slices.drop_first(), s, i - 1);
        assert(seq![slices[0]] + slices.drop_first().update(i - 1, s) =~= slices.update(i, s));
    }
}

/// Applying a slice whose name the cache does not hold appends it.
proof fn lemma_apply_applied_absent(slices: Seq<SliceModel>, s: SliceModel)
    requires
        forall|j: int| 0 <= j < slices.len() ==> slices[j].name@ != s.name@,
    ensures
        spec_apply_applied(slices, s) == slices.push(s),
    decreases slices.len(),
{
    if slices.len() == 0 {
        assert(spec_apply_applied(slices, s) =~= slices.push(s));
    } else {
        assert forall|j: int| 0 <= j < slices.drop_first().len() implies slices.drop_first()[j].name@
            != s.name@ by {
            assert(slices.drop_first()[j] == slices[j + 1]);
        }
        lemma_apply_applied_absent(slices.drop_first(), s);
        assert(seq![slices[0]] + slices.drop_first().push(s) =~= slices.push(s));
    }
}

/// Deleting a name the cache holds first at `i` removes exactly that
/// entry.
proof fn lemma_apply_deleted_at(slices: Seq<SliceModel>, name: Seq<char>, i: int)
    requires
        0 <= i < slices.len(),
        slices[i].name@ == name,
        forall|j: int| 0 <= j < i ==> slices[j].name@ != name,
    ensures
        spec_apply_deleted(slices, name) == slices.remove(i),
    decreases slices.len(),
{
    if i == 0 {
        assert(spec_apply_deleted(slices, name) =~= slices.remove(0));
    } else {
        assert(slices.drop_first()[i - 1].name@ == name);
        assert forall|j: int| 0 <= j < i - 1 implies slices.drop_first()[j].name@ != name by {
            assert(slices.drop_first()[j] == slices[j + 1]);
        }
        lemma_apply_deleted_at(slices.drop_first(), name, i - 1);
        assert(seq![slices[0]] + slices.drop_first().remove(i - 1) =~= slices.remove(i));
    }
}

/// Deleting a name the cache does not hold changes nothing.
proof fn lemma_apply_deleted_absent(slices: Seq<SliceModel>, name: Seq<char>)
    requires
        forall|j: int| 0 <= j < slices.len() ==> slices[j].name@ != name,
    ensures
        spec_apply_deleted(slices, name) == slices,
    decreases slices.len(),
{
    if slices.len() == 0 {
        assert(spec_apply_deleted(slices, name) =~= slices);
    } else {
        assert forall|j: int| 0 <= j < slices.drop_first().len() implies slices.drop_first()[j].name@
            != name by {
            assert(slices.drop_first()[j] == slices[j + 1]);
        }
        lemma_apply_deleted_absent(slices.drop_first(), name);
        assert(seq![slices[0]] + slices.drop_first() =~= slices);
    }
}

/// At most one cached slice per name: the cache is keyed by the
/// slice's name.
pub open spec fn distinct_names(slices: Seq<SliceModel>) -> bool {
    forall|i: int, j: int| 0 <= i < j < slices.len() ==> slices[i].name@ != slices[j].name@
}

/// Whether some cached slice carries the name.
pub open spec fn spec_has_name(slices: Seq<SliceModel>, name: Seq<char>) -> bool {
    exists|i: int| 0 <= i < slices.len() && slices[i].name@ == name
}

/// A name found after applying a slice was already cached, or is the
/// applied slice's own.
proof fn lemma_applied_carries_name(slices: Seq<SliceModel>, s: SliceModel, n: Seq<char>)
    requires
        spec_has_name(spec_apply_applied(slices, s), n),
    ensures
        spec_has_name(slices, n) || n == s.name@,
    decreases slices.len(),
{
    let result = spec_apply_applied(slices, s);
    let w = choose|i: int| 0 <= i < result.len() && result[i].name@ == n;
    if slices.len() == 0 {
        assert(result[w] == s);
    } else if slices[0].name@ == s.name@ {
        if w == 0 {
        } else {
            assert(result[w] == slices.drop_first()[w - 1]);
            assert(slices.drop_first()[w - 1] == slices[w]);
        }
    } else {
        if w == 0 {
            assert(result[0] == slices[0]);
        } else {
            let rest = spec_apply_applied(slices.drop_first(), s);
            assert(result[w] == rest[w - 1]);
            assert(spec_has_name(rest, n));
            lemma_applied_carries_name(slices.drop_first(), s, n);
            if spec_has_name(slices.drop_first(), n) {
                let v = choose|i: int|
                    0 <= i < slices.drop_first().len() && slices.drop_first()[i].name@ == n;
                assert(slices.drop_first()[v] == slices[v + 1]);
            }
        }
    }
}

/// A name found after a deletion was already cached.
proof fn lemma_deleted_carries_name(slices: Seq<SliceModel>, name: Seq<char>, n: Seq<char>)
    requires
        spec_has_name(spec_apply_deleted(slices, name), n),
    ensures
        spec_has_name(slices, n),
    decreases slices.len(),
{
    let result = spec_apply_deleted(slices, name);
    let w = choose|i: int| 0 <= i < result.len() && result[i].name@ == n;
    if slices.len() == 0 {
    } else if slices[0].name@ == name {
        assert(result[w] == slices[w + 1]);
    } else {
        if w == 0 {
            assert(result[0] == slices[0]);
        } else {
            let rest = spec_apply_deleted(slices.drop_first(), name);
            assert(result[w] == rest[w - 1]);
            assert(spec_has_name(rest, n));
            lemma_deleted_carries_name(slices.drop_first(), name, n);
            let v = choose|i: int|
                0 <= i < slices.drop_first().len() && slices.drop_first()[i].name@ == n;
            assert(slices.drop_first()[v] == slices[v + 1]);
        }
    }
}

/// Applying a slice keeps the cache keyed.
proof fn lemma_applied_keeps_distinct(slices: Seq<SliceModel>, s: SliceModel)
    requires
        distinct_names(slices),
    ensures
        distinct_names(spec_apply_applied(slices, s)),
    decreases slices.len(),
{
    let result = spec_apply_applied(slices, s);
    if slices.len() == 0 {
        assert(result =~= seq![s]);
    } else if slices[0].name@ == s.name@ {
        assert forall|i: int, j: int| 0 <= i < j < result.len() implies result[i].name@
            != result[j].name@ by {
            if i == 0 {
                assert(result[j] == slices[j]);
            } else {
                assert(result[i] == slices[i]);
                assert(result[j] == slices[j]);
            }
        }
    } else {
        assert(distinct_names(slices.drop_first())) by {
            assert forall|i: int, j: int|
                0 <= i < j < slices.drop_first().len() implies slices.drop_first()[i].name@
                != slices.drop_first()[j].name@ by {
                assert(slices.drop_first()[i] == slices[i + 1]);
                assert(slices.drop_first()[j] == slices[j + 1]);
            }
        }
        lemma_applied_keeps_distinct(slices.drop_first(), s);
        let rest = spec_apply_applied(slices.drop_first(), s);
        assert forall|i: int, j: int| 0 <= i < j < result.len() implies result[i].name@
            != result[j].name@ by {
            if i == 0 {
                assert(result[j] == rest[j - 1]);
                if slices[0].name@ == rest[j - 1].name@ {
                    assert(spec_has_name(rest, slices[0].name@));
                    lemma_applied_carries_name(slices.drop_first(), s, slices[0].name@);
                    if spec_has_name(slices.drop_first(), slices[0].name@) {
                        let v = choose|k: int|
                            0 <= k < slices.drop_first().len() && slices.drop_first()[k].name@
                                == slices[0].name@;
                        assert(slices.drop_first()[v] == slices[v + 1]);
                    }
                }
            } else {
                assert(result[i] == rest[i - 1]);
                assert(result[j] == rest[j - 1]);
            }
        }
    }
}

/// Deleting a slice keeps the cache keyed.
proof fn lemma_deleted_keeps_distinct(slices: Seq<SliceModel>, name: Seq<char>)
    requires
        distinct_names(slices),
    ensures
        distinct_names(spec_apply_deleted(slices, name)),
    decreases slices.len(),
{
    let result = spec_apply_deleted(slices, name);
    if slices.len() == 0 {
    } else if slices[0].name@ == name {
        assert forall|i: int, j: int| 0 <= i < j < result.len() implies result[i].name@
            != result[j].name@ by {
            assert(result[i] == slices[i + 1]);
            assert(result[j] == slices[j + 1]);
        }
    } else {
        assert(distinct_names(slices.drop_first())) by {
            assert forall|i: int, j: int|
                0 <= i < j < slices.drop_first().len() implies slices.drop_first()[i].name@
                != slices.drop_first()[j].name@ by {
                assert(slices.drop_first()[i] == slices[i + 1]);
                assert(slices.drop_first()[j] == slices[j + 1]);
            }
        }
        lemma_deleted_keeps_distinct(slices.drop_first(), name);
        let rest = spec_apply_deleted(slices.drop_first(), name);
        assert forall|i: int, j: int| 0 <= i < j < result.len() implies result[i].name@
            != result[j].name@ by {
            if i == 0 {
                assert(result[j] == rest[j - 1]);
                if slices[0].name@ == rest[j - 1].name@ {
                    assert(spec_has_name(rest, slices[0].name@));
                    lemma_deleted_carries_name(slices.drop_first(), name, slices[0].name@);
                    let v = choose|k: int|
                        0 <= k < slices.drop_first().len() && slices.drop_first()[k].name@
                            == slices[0].name@;
                    assert(slices.drop_first()[v] == slices[v + 1]);
                }
            } else {
                assert(result[i] == rest[i - 1]);
                assert(result[j] == rest[j - 1]);
            }
        }
    }
}

/// The observer: the slice cache and the last published count.
pub struct EndpointWatcher {
    pub svc_name: String,
    pub port_name: String,
    pub slices: Vec<SliceModel>,
    pub published: EndpointCount,
}

impl EndpointWatcher {
    /// The observer's invariant: the cache is keyed by slice name,
    /// and what it publishes is the classifier applied to its cache.
    pub open spec fn wf(&self) -> bool {
        &&& distinct_names(self.slices@)
        &&& self.published.workload == clamp_usize(
            spec_workload_count(self.slices@, self.svc_name@, self.port_name@),
        )
        &&& self.published.gateway == clamp_usize(
            spec_gateway_count(self.slices@, self.svc_name@, self.port_name@),
        )
    }

    /// A fresh observer for the named service and resolved port: an
    /// empty cache, nothing serving.
    pub fn new(svc_name: String, port_name: String) -> (w: EndpointWatcher)
        ensures
            w.wf(),
            w.svc_name == svc_name,
            w.port_name == port_name,
            w.slices@ == Seq::<SliceModel>::empty(),
            w.published == (EndpointCount { workload: 0, gateway: 0 }),
    {
        let w = EndpointWatcher {
            svc_name,
            port_name,
            slices: Vec::new(),
            published: EndpointCount { workload: 0, gateway: 0 },
        };
        proof {
            assert(spec_workload_count(w.slices@, w.svc_name@, w.port_name@) == 0);
            assert(spec_gateway_count(w.slices@, w.svc_name@, w.port_name@) == 0);
        }
        w
    }

    /// The index of the first cached slice named `name`.
    fn find_slice(&self, name: &String) -> (r: Option<usize>)
        ensures
            match r {
                Some(i) => {
                    &&& 0 <= i < self.slices@.len()
                    &&& self.slices@[i as int].name@ == name@
                    &&& forall|j: int| 0 <= j < i ==> self.slices@[j].name@ != name@
                },
                None => forall|j: int|
                    0 <= j < self.slices@.len() ==> self.slices@[j].name@ != name@,
            },
    {
        let mut i: usize = 0;
        while i < self.slices.len()
            invariant
                0 <= i <= self.slices@.len(),
                forall|j: int| 0 <= j < i ==> self.slices@[j].name@ != name@,
            decreases self.slices@.len() - i,
        {
            if self.slices[i].name == *name {
                return Some(i);
            }
            i += 1;
        }
        None
    }

    /// Process one watch event: update the cache, recompute the count
    /// from the whole cache, and report whether the published count
    /// changed.
    ///
    /// At every return the published count equals the classifier
    /// applied to the cache (the observer's invariant), and the count
    /// is republished if and only if it differs from the previous one.
    pub fn handle_event(&mut self, ev: SliceEvent) -> (changed: bool)
        requires
            old(self).wf(),
        ensures
            final(self).wf(),
            final(self).svc_name == old(self).svc_name,
            final(self).port_name == old(self).port_name,
            final(self).slices@ == spec_apply_event(old(self).slices@, ev),
            changed == (final(self).published != old(self).published),
    {
        proof {
            match ev {
                SliceEvent::Applied(ref s) => lemma_applied_keeps_distinct(
                    old(self).slices@,
                    *s,
                ),
                SliceEvent::Deleted(ref name) => lemma_deleted_keeps_distinct(
                    old(self).slices@,
                    name@,
                ),
            }
        }
        match ev {
            SliceEvent::Applied(s) => {
                let found = self.find_slice(&s.name);
                match found {
                    Some(i) => {
                        proof {
                            lemma_apply_applied_at(self.slices@, s, i as int);
                        }
                        let ghost before = self.slices@;
                        self.slices.remove(i);
                        self.slices.insert(i, s);
                        proof {
                            assert(self.slices@ =~= before.update(i as int, s));
                        }
                    },
                    None => {
                        proof {
                            lemma_apply_applied_absent(self.slices@, s);
                        }
                        self.slices.push(s);
                    },
                }
            },
            SliceEvent::Deleted(name) => {
                let found = self.find_slice(&name);
                match found {
                    Some(i) => {
                        proof {
                            lemma_apply_deleted_at(self.slices@, name@, i as int);
                        }
                        self.slices.remove(i);
                    },
                    None => {
                        proof {
                            lemma_apply_deleted_absent(self.slices@, name@);
                        }
                    },
                }
            },
        }
        let c = serving_endpoints(&self.slices, &self.svc_name, &self.port_name);
        let changed = !(c == self.published);
        self.published = c;
        changed
    }

    /// True iff at least one workload endpoint is serving, by the last
    /// published count.
    pub fn backend_is_serving(&self) -> (b: bool)
        ensures
            b == (self.published.workload > 0),
    {
        self.published.backend_is_serving()
    }

    /// True iff at least one gateway-owned endpoint is serving, by the
    /// last published count.
    pub fn sero_is_serving(&self) -> (b: bool)
        ensures
            b == (self.published.gateway > 0),
    {
        self.published.sero_is_serving()
    }
}

} // verus!
