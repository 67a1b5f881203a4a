//! The generic object graph that annotations compile down to, and the
//! model under which this library reasons about it.
//!
//! The library builds `lopdf` dictionaries, arrays and scalars. Those
//! values are opaque here; every contract speaks of them through the
//! model functions `obj_model` and `dict_model`.

use vstd::prelude::*;

verus! {

/// Model of a value in the document object graph.
///
/// A `Name` carries the characters of the name; a `Dict` carries its
/// entries in insertion order, because the textual rendering of a
/// dictionary preserves that order. A scalar number object this library
/// only carries through is modelled by whatever `obj_model` assigns it.
#[verifier::ext_equal]
pub enum ObjModel {
    Bool(bool),
    Name(Seq<char>),
    Array(Seq<ObjModel>),
    Dict(Seq<(Seq<char>, ObjModel)>),
}

/// Whether some entry of `m` has key `k`.
pub open spec fn has_key(m: Seq<(Seq<char>, ObjModel)>, k: Seq<char>) -> bool {
    exists|i: int| 0 <= i < m.len() && m[i].0 == k
}

/// Whether no key of `add` occurs in `base`.
pub open spec fn fresh_keys(base: Seq<(Seq<char>, ObjModel)>, add: Seq<(Seq<char>, ObjModel)>) -> bool {
    forall|j: int| 0 <= j < add.len() ==> !has_key(base, #[trigger] add[j].0)
}

/// A key occurs in an appended entry sequence exactly when it occurs in
/// one of the two halves.
pub proof fn lemma_has_key_append(
    a: Seq<(Seq<char>, ObjModel)>,
    b: Seq<(Seq<char>, ObjModel)>,
    k: Seq<char>,
)
    ensures
        has_key(a + b, k) <==> (has_key(a, k) || has_key(b, k)),
{
    if has_key(a, k) {
        let i = choose|i: int| 0 <= i < a.len() && a[i].0 == k;
        assert((a + b)[i].0 == k);
    }
    if has_key(b, k) {
        let i = choose|i: int| 0 <= i < b.len() && b[i].0 == k;
        assert((a + b)[a.len() + i].0 == k);
    }
    if has_key(a + b, k) {
        let i = choose|i: int| 0 <= i < (a + b).len() && (a + b)[i].0 == k;
        if i < a.len() {
            assert(a[i].0 == k);
        } else {
            assert(b[i - a.len()].0 == k);
        }
    }
}

/// A property of keys carries over from both halves to an appended
/// entry sequence.
pub proof fn lemma_keys_of_append(
    a: Seq<(Seq<char>, ObjModel)>,
    b: Seq<(Seq<char>, ObjModel)>,
    p: spec_fn(Seq<char>) -> bool,
)
    requires
        forall|i: int| 0 <= i < a.len() ==> p(#[trigger] a[i].0),
        forall|i: int| 0 <= i < b.len() ==> p(#[trigger] b[i].0),
    ensures
        forall|i: int| 0 <= i < (a + b).len() ==> p(#[trigger] (a + b)[i].0),
{
    assert forall|i: int| 0 <= i < (a + b).len() implies p((a + b)[i].0) by {
        if i < a.len() {
            assert((a + b)[i] == a[i]);
        } else {
            assert((a + b)[i] == b[i - a.len()]);
        }
    }
}

/// The dictionary keys this library writes are pairwise distinct.
pub proof fn lemma_keys_distinct()
    ensures
        "Type"@ != "Subtype"@,
        "Type"@ != "Open"@,
        "Type"@ != "Name"@,
        "Type"@ != "StateModel"@,
        "Type"@ != "State"@,
        "Type"@ != "QuadPoints"@,
        "Type"@ != "Rect"@,
        "Type"@ != "Contents"@,
        "Subtype"@ != "Open"@,
        "Subtype"@ != "Name"@,
        "Subtype"@ != "StateModel"@,
        "Subtype"@ != "State"@,
        "Subtype"@ != "QuadPoints"@,
        "Subtype"@ != "Rect"@,
        "Subtype"@ != "Contents"@,
        "Open"@ != "Name"@,
        "Open"@ != "StateModel"@,
        "Open"@ != "State"@,
        "Open"@ != "QuadPoints"@,
        "Open"@ != "Rect"@,
        "Open"@ != "Contents"@,
        "Name"@ != "StateModel"@,
        "Name"@ != "State"@,
        "Name"@ != "QuadPoints"@,
        "Name"@ != "Rect"@,
        "Name"@ != "Contents"@,
        "StateModel"@ != "State"@,
        "StateModel"@ != "QuadPoints"@,
        "StateModel"@ != "Rect"@,
        "StateModel"@ != "Contents"@,
        "State"@ != "QuadPoints"@,
        "State"@ != "Rect"@,
        "State"@ != "Contents"@,
        "QuadPoints"@ != "Rect"@,
        "QuadPoints"@ != "Contents"@,
        "Rect"@ != "Contents"@,
{
    reveal_strlit("Type");
    reveal_strlit("Subtype");
    reveal_strlit("Open");
    reveal_strlit("Name");
    reveal_strlit("StateModel");
    reveal_strlit("State");
    reveal_strlit("QuadPoints");
    reveal_strlit("Rect");
    reveal_strlit("Contents");
    assert("Type"@.len() == 4);
    assert("Subtype"@.len() == 7);
    assert("Open"@.len() == 4);
    assert("Name"@.len() == 4);
    assert("StateModel"@.len() == 10);
    assert("State"@.len() == 5);
    assert("QuadPoints"@.len() == 10);
    assert("Rect"@.len() == 4);
    assert("Contents"@.len() == 8);
    assert("Type"@[0] == 'T');
    assert("Open"@[0] == 'O');
    assert("Name"@[0] == 'N');
    assert("Rect"@[0] == 'R');
    assert("StateModel"@[0] == 'S');
    assert("QuadPoints"@[0] == 'Q');
}

/// The generic object type of `lopdf`, held opaquely: the library
/// learns about a value of it only through `obj_model`.
#[verifier::external_type_specification]
#[verifier::external_body]
pub struct ExObject(lopdf::Object);

/// The insertion-ordered dictionary type of `lopdf`, held opaquely: the
/// library learns about its entries only through `dict_model`.
#[verifier::external_type_specification]
#[verifier::external_body]
pub struct ExDictionary(lopdf::Dictionary);

/// What a `lopdf::Object` holds, as a model value.
pub uninterp spec fn obj_model(o: lopdf::Object) -> ObjModel;

/// The entries of a `lopdf::Dictionary`, in insertion order.
pub uninterp spec fn dict_model(d: lopdf::Dictionary) -> Seq<(Seq<char>, ObjModel)>;

/// Relies on `lopdf::Dictionary::new`: it returns an empty dictionary.
#[verifier::external_body]
pub(crate) fn dict_new() -> (d: lopdf::Dictionary)
    ensures
        dict_model(d) == Seq::<(Seq<char>, ObjModel)>::empty(),
{
    lopdf::Dictionary::new()
}

/// Relies on `lopdf::Dictionary::set`: inserting under a key that is
/// absent appends the new entry after all existing ones.
#[verifier::external_body]
pub(crate) fn dict_set(d: &mut lopdf::Dictionary, key: &str, value: lopdf::Object)
    requires
        !has_key(dict_model(*old(d)), key@),
    ensures
        dict_model(*final(d)) == dict_model(*old(d)).push((key@, obj_model(value))),
{
    d.set(key, value);
}

/// Relies on `lopdf::Dictionary::extend`: when the two dictionaries
/// share no key, every entry of `other` is appended to `d`, in order.
#[verifier::external_body]
pub(crate) fn dict_extend(d: &mut lopdf::Dictionary, other: &lopdf::Dictionary)
    requires
        fresh_keys(dict_model(*old(d)), dict_model(*other)),
    ensures
        dict_model(*final(d)) == dict_model(*old(d)) + dict_model(*other),
{
    d.extend(other);
}

/// Relies on `lopdf`'s `From<bool> for Object`: it yields a boolean
/// object holding the given value.
#[verifier::external_body]
pub(crate) fn obj_bool(b: bool) -> (r: lopdf::Object)
    ensures
        obj_model(r) == ObjModel::Bool(b),
{
    lopdf::Object::from(b)
}

/// Relies on `lopdf`'s `From<&str> for Object`: it yields a name object
/// holding exactly the bytes of the string.
#[verifier::external_body]
pub(crate) fn obj_name(s: &str) -> (r: lopdf::Object)
    ensures
        obj_model(r) == ObjModel::Name(s@),
{
    lopdf::Object::from(s)
}

/// Relies on the `Clone` of `lopdf::Object`, which is derived: the
/// clone holds the same value as the object it was cloned from.
pub assume_specification[ <lopdf::Object as Clone>::clone ](o: &lopdf::Object) -> (r: lopdf::Object)
    ensures
        obj_model(r) == obj_model(*o),
;

/// Relies on `lopdf`'s `From<Vec<Object>> for Object`: it yields an
/// array object holding exactly the given items, in order.
#[verifier::external_body]
pub(crate) fn obj_array(items: Vec<lopdf::Object>) -> (r: lopdf::Object)
    ensures
        obj_model(r) == ObjModel::Array(items@.map_values(|o: lopdf::Object| obj_model(o))),
{
    lopdf::Object::from(items)
}

/// Relies on `lopdf`'s `From<Dictionary> for Object`: it wraps the
/// dictionary as a dictionary object.
#[verifier::external_body]
pub(crate) fn obj_dict(d: lopdf::Dictionary) -> (r: lopdf::Object)
    ensures
        obj_model(r) == ObjModel::Dict(dict_model(d)),
{
    lopdf::Object::from(d)
}

} // verus!
