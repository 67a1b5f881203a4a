//! The top-level annotation entity: geometric primitives, the closed
//! set of subtypes, and the assembly of the final dictionary object.

use vstd::prelude::*;

use crate::highlight::HighlightAnnotation;
use crate::obj::ObjModel;
use crate::obj::dict_extend;
use crate::obj::dict_model;
use crate::obj::dict_new;
use crate::obj::dict_set;
use crate::obj::fresh_keys;
use crate::obj::has_key;
use crate::obj::lemma_has_key_append;
use crate::obj::lemma_keys_distinct;
use crate::obj::lemma_keys_of_append;
use crate::obj::obj_array;
use crate::obj::obj_dict;
use crate::obj::obj_model;
use crate::obj::obj_name;
use crate::text::TextAnnotation;

verus! {

/// An axis-aligned rectangle: four coordinate scalars in construction
/// order (lower-left x and y, upper-right x and y). The coordinates are
/// carried as opaque scalar objects and are not validated: lower-left
/// need not lie below upper-right.
pub struct Rect(
    pub lopdf::Object,
    pub lopdf::Object,
    pub lopdf::Object,
    pub lopdf::Object,
);

impl Rect {
    /// The array the rectangle converts to: its four coordinates,
    /// in construction order.
    pub open spec fn obj(self) -> ObjModel {
        ObjModel::Array(
            seq![obj_model(self.0), obj_model(self.1), obj_model(self.2), obj_model(self.3)],
        )
    }

    /// A rectangle from its four coordinates.
    pub fn new(
        llx: lopdf::Object,
        lly: lopdf::Object,
        urx: lopdf::Object,
        ury: lopdf::Object,
    ) -> (r: Self)
        ensures
            r == (Rect(llx, lly, urx, ury)),
    {
        Rect(llx, lly, urx, ury)
    }

    /// Convert to the four-element array of the coordinates, in
    /// construction order: nothing is reordered, dropped or checked.
    pub fn to_object(&self) -> (r: lopdf::Object)
        ensures
            obj_model(r) == self.obj(),
    {
        let mut items: Vec<lopdf::Object> = Vec::new();
        items.push(self.0.clone());
        items.push(self.1.clone());
        items.push(self.2.clone());
        items.push(self.3.clone());
        let r = obj_array(items);
        proof {
            assert(items@.map_values(|o: lopdf::Object| obj_model(o)) =~= seq![
                obj_model(self.0),
                obj_model(self.1),
                obj_model(self.2),
                obj_model(self.3),
            ]);
        }
        r
    }
}

/// A quadrilateral: four corner points as eight coordinate scalars, in
/// the order the document format expects them consumed; the shape is
/// not validated.
pub struct QuadPoints(
    pub lopdf::Object,
    pub lopdf::Object,
    pub lopdf::Object,
    pub lopdf::Object,
    pub lopdf::Object,
    pub lopdf::Object,
    pub lopdf::Object,
    pub lopdf::Object,
);

impl QuadPoints {
    /// The array the quadrilateral converts to: its eight coordinates,
    /// in construction order.
    pub open spec fn obj(self) -> ObjModel {
        ObjModel::Array(
            seq![
                obj_model(self.0),
                obj_model(self.1),
                obj_model(self.2),
                obj_model(self.3),
                obj_model(self.4),
                obj_model(self.5),
                obj_model(self.6),
                obj_model(self.7),
            ],
        )
    }

    /// A quadrilateral from its eight coordinates.
    pub fn new(
        x1: lopdf::Object,
        y1: lopdf::Object,
        x2: lopdf::Object,
        y2: lopdf::Object,
        x3: lopdf::Object,
        y3: lopdf::Object,
        x4: lopdf::Object,
        y4: lopdf::Object,
    ) -> (r: Self)
        ensures
            r == (QuadPoints(x1, y1, x2, y2, x3, y3, x4, y4)),
    {
        QuadPoints(x1, y1, x2, y2, x3, y3, x4, y4)
    }

    /// Convert to the eight-element array of the coordinates, in
    /// construction order: nothing is reordered, dropped or checked.
    pub fn to_object(&self) -> (r: lopdf::Object)
        ensures
            obj_model(r) == self.obj(),
    {
        let mut items: Vec<lopdf::Object> = Vec::new();
        items.push(self.0.clone());
        items.push(self.1.clone());
        items.push(self.2.clone());
        items.push(self.3.clone());
        items.push(self.4.clone());
        items.push(self.5.clone());
        items.push(self.6.clone());
        items.push(self.7.clone());
        let r = obj_array(items);
        proof {
            assert(items@.map_values(|o: lopdf::Object| obj_model(o)) =~= seq![
                obj_model(self.0),
                obj_model(self.1),
                obj_model(self.2),
                obj_model(self.3),
                obj_model(self.4),
                obj_model(self.5),
                obj_model(self.6),
                obj_model(self.7),
            ]);
        }
        r
    }
}

/// The closed set of annotation subtypes: exactly one is active per
/// annotation.
pub enum AnnotationType {
    Text(TextAnnotation),
    Highlight(HighlightAnnotation),
}

/// The keys a subtype dictionary may write. `Type`, `Rect` and
/// `Contents` are none of them, which is what keeps the top-level
/// entries from being shadowed by a merge.
pub open spec fn is_subtype_key(k: Seq<char>) -> bool {
    k == "Subtype"@ || k == "Open"@ || k == "Name"@ || k == "StateModel"@ || k == "State"@
        || k == "QuadPoints"@
}

/// Every key a subtype dictionary writes is one of the subtype keys.
pub proof fn lemma_subtype_keys(t: AnnotationType)
    ensures
        forall|j: int| 0 <= j < t.entries().len() ==> is_subtype_key(#[trigger] t.entries()[j].0),
{
    let p = |k: Seq<char>| is_subtype_key(k);
    match t {
        AnnotationType::Text(ta) => {
            let base = seq![("Subtype"@, ObjModel::Name("Text"@))];
            assert(forall|i: int| 0 <= i < base.len() ==> p(#[trigger] base[i].0));
            assert(forall|i: int|
                0 <= i < ta.open_entries().len() ==> p(#[trigger] ta.open_entries()[i].0));
            assert(forall|i: int|
                0 <= i < ta.name_entries().len() ==> p(#[trigger] ta.name_entries()[i].0));
            assert(forall|i: int|
                0 <= i < ta.state_entries().len() ==> p(#[trigger] ta.state_entries()[i].0));
            lemma_keys_of_append(base, ta.open_entries(), p);
            lemma_keys_of_append(base + ta.open_entries(), ta.name_entries(), p);
            lemma_keys_of_append(
                base + ta.open_entries() + ta.name_entries(),
                ta.state_entries(),
                p,
            );
            assert(t.entries() == base + ta.open_entries() + ta.name_entries()
                + ta.state_entries());
        }
        AnnotationType::Highlight(h) => {
            assert forall|j: int| 0 <= j < t.entries().len() implies is_subtype_key(
                t.entries()[j].0,
            ) by {}
        }
    }
}

impl AnnotationType {
    /// The entries of the active variant's subtype dictionary.
    pub open spec fn entries(self) -> Seq<(Seq<char>, ObjModel)> {
        match self {
            AnnotationType::Text(t) => t.entries(),
            AnnotationType::Highlight(h) => h.entries(),
        }
    }

    /// Convert to the subtype dictionary of the active variant.
    pub fn to_dictionary(&self) -> (d: lopdf::Dictionary)
        ensures
            dict_model(d) == self.entries(),
    {
        match self {
            AnnotationType::Text(t) => t.to_dictionary(),
            AnnotationType::Highlight(h) => h.to_dictionary(),
        }
    }
}

/// A markup annotation: a required subtype, a required rectangle, and
/// optional free-text contents. It is built by a factory, optionally
/// decorated, and then converted into the generic object graph.
pub struct Annotation {
    pub subtype: AnnotationType,
    pub rect: Rect,
    pub contents: Option<String>,
}

impl Annotation {
    /// The entry the free-text contents contribute, if set.
    pub open spec fn contents_entries(self) -> Seq<(Seq<char>, ObjModel)> {
        match self.contents {
            Some(c) => seq![("Contents"@, ObjModel::Name(c@))],
            None => Seq::empty(),
        }
    }

    /// The entries of the final dictionary, in their fixed order:
    /// `Type`, the subtype's entries, `Rect`, then `Contents` if set.
    pub open spec fn dict_entries(self) -> Seq<(Seq<char>, ObjModel)> {
        seq![("Type"@, ObjModel::Name("Annot"@))] + self.subtype.entries()
            + seq![("Rect"@, self.rect.obj())] + self.contents_entries()
    }

    /// The converted annotation: a dictionary object with exactly
    /// `dict_entries`.
    pub open spec fn obj(self) -> ObjModel {
        ObjModel::Dict(self.dict_entries())
    }

    /// An annotation over `rect` with the given subtype and no
    /// contents.
    pub fn new(subtype: AnnotationType, rect: Rect) -> (r: Self)
        ensures
            r == (Annotation { subtype, rect, contents: None }),
    {
        Annotation { subtype, rect, contents: None }
    }

    /// A text annotation over `rect` with no optional field set.
    pub fn text(rect: Rect) -> (r: Self)
        ensures
            r == (Annotation {
                subtype: AnnotationType::Text(
                    TextAnnotation { open: None, name: None, state: None },
                ),
                rect,
                contents: None,
            }),
    {
        let subtype = AnnotationType::Text(TextAnnotation::default());
        Annotation { subtype, rect, contents: None }
    }

    /// Set the free-text contents; the other fields are unchanged.
    pub fn contents(self, contents: String) -> (r: Self)
        ensures
            r == (Annotation { contents: Some(contents), ..self }),
    {
        Annotation { contents: Some(contents), ..self }
    }

    /// Assemble the final dictionary, in fixed order: `Type` first,
    /// then every entry of the subtype dictionary merged in, then
    /// `Rect` — set after the merge, so it can never be shadowed —
    /// then `Contents` if contents are set.
    pub fn to_dictionary(&self) -> (d: lopdf::Dictionary)
        ensures
            dict_model(d) == self.dict_entries(),
    {
        let ghost base = seq![("Type"@, ObjModel::Name("Annot"@))];
        let mut dict = dict_new();
        proof {
            lemma_keys_distinct();
        }
        dict_set(&mut dict, "Type", obj_name("Annot"));
        let inner = self.subtype.to_dictionary();
        proof {
            lemma_subtype_keys(self.subtype);
            assert forall|j: int|
                0 <= j < dict_model(inner).len() implies !has_key(
                dict_model(dict),
                #[trigger] dict_model(inner)[j].0,
            ) by {
                assert(is_subtype_key(dict_model(inner)[j].0));
            }
            assert(fresh_keys(dict_model(dict), dict_model(inner)));
        }
        dict_extend(&mut dict, &inner);
        let rect_obj = self.rect.to_object();
        proof {
            lemma_has_key_append(base, self.subtype.entries(), "Rect"@);
            assert(!has_key(self.subtype.entries(), "Rect"@));
        }
        dict_set(&mut dict, "Rect", rect_obj);
        proof {
            assert(dict_model(dict) =~= base + self.subtype.entries()
                + seq![("Rect"@, self.rect.obj())]);
        }
        if let Some(contents) = &self.contents {
            proof {
                lemma_has_key_append(
                    base + self.subtype.entries(),
                    seq![("Rect"@, self.rect.obj())],
                    "Contents"@,
                );
                lemma_has_key_append(base, self.subtype.entries(), "Contents"@);
                assert(!has_key(self.subtype.entries(), "Contents"@));
            }
            dict_set(&mut dict, "Contents", obj_name(contents.as_str()));
        }
        proof {
            assert(dict_model(dict) =~= self.dict_entries());
        }
        dict
    }

    /// Convert to the final dictionary object.
    pub fn to_object(&self) -> (r: lopdf::Object)
        ensures
            obj_model(r) == self.obj(),
    {
        obj_dict(self.to_dictionary())
    }
}

/// Conversion is deterministic: the model of the object `to_object`
/// returns is a function of the annotation value alone, so converting
/// the same annotation twice yields objects equal in the model —
/// conversion keeps no hidden state.
pub proof fn lemma_conversion_deterministic(
    a: Annotation,
    o1: lopdf::Object,
    o2: lopdf::Object,
)
    requires
        obj_model(o1) == a.obj(),
        obj_model(o2) == a.obj(),
    ensures
        obj_model(o1) == obj_model(o2),
{
}

} // verus!
