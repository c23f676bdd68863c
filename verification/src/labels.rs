//! Labels on endpoint slices, and the two label keys the gateway works
//! with.
//!
//! Every slice routable for a service carries the platform label
//! `kubernetes.io/service-name=<svc>`; a slice additionally carrying
//! `sero.rs/service-name=<svc>` is owned by the gateway. Injection and
//! ejection add and remove the platform label on gateway-owned slices,
//! so the routing either includes or excludes the gateway.

use vstd::prelude::*;

verus! {

/// One label: a key and a value.
#[derive(Clone, Debug)]
pub struct Label {
    pub key: String,
    pub value: String,
}

/// The mathematical value of a label: its key and value as character
/// sequences.
#[verifier::ext_equal]
pub struct LabelView {
    pub key: Seq<char>,
    pub value: Seq<char>,
}

impl View for Label {
    type V = LabelView;

    open spec fn view(&self) -> LabelView {
        LabelView { key: self.key@, value: self.value@ }
    }
}

/// The label set a `Vec<Label>` stands for, in order.
pub open spec fn labels_view(ls: Seq<Label>) -> Seq<LabelView> {
    ls.map_values(|l: Label| l@)
}

/// The platform's routing label key: its presence on a slice makes the
/// slice routable for the named service.
pub open spec fn service_label_key() -> Seq<char> {
    "kubernetes.io/service-name"@
}

/// The gateway's ownership label key: its presence marks a slice as
/// created and managed by the gateway.
pub open spec fn gateway_label_key() -> Seq<char> {
    "sero.rs/service-name"@
}

/// The platform's routing label key, as a string.
pub fn service_label_key_str() -> (s: String)
    ensures
        s@ == service_label_key(),
{
    String::from_str("kubernetes.io/service-name")
}

/// The gateway's ownership label key, as a string.
pub fn gateway_label_key_str() -> (s: String)
    ensures
        s@ == gateway_label_key(),
{
    String::from_str("sero.rs/service-name")
}

/// The selector `kubernetes.io/service-name=<svc>`: the watch is
/// restricted to the slices routable for the service.
pub fn service_selector(svc_name: &String) -> (s: String)
    ensures
        s@ == service_label_key() + "="@ + svc_name@,
{
    let s = service_label_key_str().concat("=");
    s.concat(svc_name.as_str())
}

/// The selector `sero.rs/service-name=<svc>`: injection and ejection
/// touch only the gateway-owned slices of the service.
pub fn gateway_selector(svc_name: &String) -> (s: String)
    ensures
        s@ == gateway_label_key() + "="@ + svc_name@,
{
    let s = gateway_label_key_str().concat("=");
    s.concat(svc_name.as_str())
}

/// Whether some label of `ls` carries the key `k`.
pub open spec fn spec_has_key(ls: Seq<LabelView>, k: Seq<char>) -> bool {
    exists|i: int| 0 <= i < ls.len() && ls[i].key == k
}

/// The value of the first label of `ls` carrying the key `k`.
pub open spec fn spec_label_value(ls: Seq<LabelView>, k: Seq<char>) -> Option<Seq<char>>
    decreases ls.len(),
{
    if ls.len() == 0 {
        None
    } else if ls[0].key == k {
        Some(ls[0].value)
    } else {
        spec_label_value(ls.drop_first(), k)
    }
}

/// The label set with every label keyed `k` removed; the order of the
/// others is kept.
pub open spec fn spec_remove_label(ls: Seq<LabelView>, k: Seq<char>) -> Seq<LabelView>
    decreases ls.len(),
{
    if ls.len() == 0 {
        Seq::<LabelView>::empty()
    } else if ls[0].key == k {
        spec_remove_label(ls.drop_first(), k)
    } else {
        seq![ls[0]] + spec_remove_label(ls.drop_first(), k)
    }
}

/// The label set with the binding `k = v` added, replacing any label
/// previously keyed `k` (the effect of a JSON patch `add` on a label
/// object, whose member keys are unique).
pub open spec fn spec_add_label(ls: Seq<LabelView>, k: Seq<char>, v: Seq<char>) -> Seq<
    LabelView,
> {
    spec_remove_label(ls, k).push(LabelView { key: k, value: v })
}

/// Look up the value of the first label carrying `key`.
pub fn label_value<'a>(ls: &'a Vec<Label>, key: &String) -> (r: Option<&'a String>)
    ensures
        match r {
            Some(v) => spec_label_value(labels_view(ls@), key@) == Some(v@),
            None => spec_label_value(labels_view(ls@), key@) is None,
        },
{
    let mut i: usize = 0;
    proof {
        assert(ls@.skip(0) =~= ls@);
    }
    while i < ls.len()
        invariant
            0 <= i <= ls@.len(),
            spec_label_value(labels_view(ls@), key@) == spec_label_value(
                labels_view(ls@.skip(i as int)),
                key@,
            ),
        decreases ls@.len() - i,
    {
        proof {
            lemma_labels_view_drop_first(ls@.skip(i as int));
            assert(ls@.skip(i as int).drop_first() =~= ls@.skip(i as int + 1));
        }
        if ls[i].key == *key {
            return Some(&ls[i].value);
        }
        i += 1;
    }
    None
}

/// Whether some label of `ls` carries `key`.
pub fn has_label_key(ls: &Vec<Label>, key: &String) -> (b: bool)
    ensures
        b == spec_has_key(labels_view(ls@), key@),
{
    let mut i: usize = 0;
    while i < ls.len()
        invariant
            0 <= i <= ls@.len(),
            forall|j: int| 0 <= j < i ==> labels_view(ls@)[j].key != key@,
        decreases ls@.len() - i,
    {
        if ls[i].key == *key {
            proof {
                assert(labels_view(ls@)[i as int].key == key@);
            }
            return true;
        }
        i += 1;
    }
    false
}

/// The label set with every label keyed `key` removed.
pub fn remove_label(ls: &Vec<Label>, key: &String) -> (r: Vec<Label>)
    ensures
        labels_view(r@) == spec_remove_label(labels_view(ls@), key@),
{
    let mut r: Vec<Label> = Vec::new();
    let mut i: usize = 0;
    proof {
        assert(labels_view(r@) =~= Seq::<LabelView>::empty());
        assert(ls@.skip(0) =~= ls@);
    }
    while i < ls.len()
        invariant
            0 <= i <= ls@.len(),
            labels_view(r@) + spec_remove_label(labels_view(ls@.skip(i as int)), key@)
                == spec_remove_label(labels_view(ls@), key@),
        decreases ls@.len() - i,
    {
        proof {
            lemma_labels_view_drop_first(ls@.skip(i as int));
            assert(ls@.skip(i as int).drop_first() =~= ls@.skip(i as int + 1));
        }
        let ghost prev = labels_view(r@);
        if !(ls[i].key == *key) {
            r.push(Label { key: ls[i].key.clone(), value: ls[i].value.clone() });
            proof {
                assert(labels_view(r@) =~= prev.push(ls@[i as int]@));
                assert(prev.push(ls@[i as int]@) + spec_remove_label(
                    labels_view(ls@.skip(i as int + 1)),
                    key@,
                ) =~= prev + (seq![ls@[i as int]@] + spec_remove_label(
                    labels_view(ls@.skip(i as int + 1)),
                    key@,
                )));
            }
        }
        i += 1;
    }
    proof {
        assert(ls@.skip(i as int) =~= Seq::<Label>::empty());
        assert(labels_view(Seq::<Label>::empty()) =~= Seq::<LabelView>::empty());
        assert(labels_view(r@) + Seq::<LabelView>::empty() =~= labels_view(r@));
    }
    r
}

/// The label set with `key = value` added, any previous binding of
/// `key` replaced.
pub fn add_label(ls: &Vec<Label>, key: &String, value: &String) -> (r: Vec<Label>)
    ensures
        labels_view(r@) == spec_add_label(labels_view(ls@), key@, value@),
{
    let mut r = remove_label(ls, key);
    let ghost removed = labels_view(r@);
    r.push(Label { key: key.clone(), value: value.clone() });
    proof {
        assert(labels_view(r@) =~= removed.push(LabelView { key: key@, value: value@ }));
    }
    r
}

/// Indexing through `labels_view` commutes with dropping the first
/// label.
proof fn lemma_labels_view_drop_first(ls: Seq<Label>)
    requires
        ls.len() > 0,
    ensures
        labels_view(ls)[0] == ls[0]@,
        labels_view(ls).drop_first() =~= labels_view(ls.drop_first()),
{
}

/// Removing a key that no label carries leaves the label set as it
/// was.
pub proof fn lemma_remove_absent_key(ls: Seq<LabelView>, k: Seq<char>)
    requires
        !spec_has_key(ls, k),
    ensures
        spec_remove_label(ls, k) == ls,
    decreases ls.len(),
{
    if ls.len() == 0 {
        assert(spec_remove_label(ls, k) =~= ls);
    } else {
        assert(ls[0].key != k);
        assert(!spec_has_key(ls.drop_first(), k)) by {
            assert forall|i: int| 0 <= i < ls.drop_first().len() implies ls.drop_first()[i].key
                != k by {
                assert(ls.drop_first()[i] == ls[i + 1]);
            }
        }
        lemma_remove_absent_key(ls.drop_first(), k);
        assert(spec_remove_label(ls, k) =~= ls);
    }
}

/// After removing a key, no label carries it.
pub proof fn lemma_remove_removes_key(ls: Seq<LabelView>, k: Seq<char>)
    ensures
        !spec_has_key(spec_remove_label(ls, k), k),
    decreases ls.len(),
{
    if ls.len() == 0 {
    } else {
        lemma_remove_removes_key(ls.drop_first(), k);
        if ls[0].key == k {
        } else {
            let rest = spec_remove_label(ls.drop_first(), k);
            let whole = seq![ls[0]] + rest;
            assert forall|i: int| 0 <= i < whole.len() implies whole[i].key != k by {
                if i == 0 {
                } else {
                    assert(whole[i] == rest[i - 1]);
                }
            }
        }
    }
}

/// Removing a key after pushing a label carrying that key removes the
/// pushed label too.
pub proof fn lemma_remove_after_push_same_key(ls: Seq<LabelView>, k: Seq<char>, v: Seq<char>)
    ensures
        spec_remove_label(ls.push(LabelView { key: k, value: v }), k) == spec_remove_label(ls, k),
    decreases ls.len(),
{
    let lv = LabelView { key: k, value: v };
    if ls.len() == 0 {
        assert(ls.push(lv)[0] == lv);
        assert(ls.push(lv).drop_first() =~= ls);
        assert(spec_remove_label(ls.push(lv), k) == spec_remove_label(
            ls.push(lv).drop_first(),
            k,
        ));
    } else {
        lemma_remove_after_push_same_key(ls.drop_first(), k, v);
        assert(ls.push(lv)[0] == ls[0]);
        assert(ls.push(lv).drop_first() =~= ls.drop_first().push(lv));
        if ls[0].key == k {
            assert(spec_remove_label(ls.push(lv), k) == spec_remove_label(
                ls.drop_first().push(lv),
                k,
            ));
            assert(spec_remove_label(ls, k) == spec_remove_label(ls.drop_first(), k));
        } else {
            assert(spec_remove_label(ls.push(lv), k) == seq![ls[0]] + spec_remove_label(
                ls.drop_first().push(lv),
                k,
            ));
            assert(spec_remove_label(ls, k) == seq![ls[0]] + spec_remove_label(
                ls.drop_first(),
                k,
            ));
        }
    }
}

/// Label round trip: adding a binding for a key that the label set did
/// not carry and then removing that key restores the label set.
///
/// Injection adds the platform routing label to a gateway-owned slice
/// and ejection removes it again; for a slice that did not carry the
/// label beforehand the pair of operations leaves its label set
/// exactly as it was.
pub proof fn lemma_label_round_trip(ls: Seq<LabelView>, k: Seq<char>, v: Seq<char>)
    requires
        !spec_has_key(ls, k),
    ensures
        spec_remove_label(spec_add_label(ls, k, v), k) == ls,
{
    lemma_remove_absent_key(ls, k);
    lemma_remove_after_push_same_key(ls, k, v);
    lemma_remove_absent_key(spec_remove_label(ls, k), k);
    assert(spec_remove_label(spec_add_label(ls, k, v), k) =~= ls);
}

} // verus!
