//! Highlight annotations: a required quadrilateral region and its
//! conversion to the subtype dictionary.

use vstd::prelude::*;

use crate::annotation::QuadPoints;
use crate::obj::ObjModel;
use crate::obj::dict_model;
use crate::obj::dict_new;
use crate::obj::dict_set;
use crate::obj::lemma_keys_distinct;
use crate::obj::obj_name;

verus! {

/// A highlighted region: exactly one required `quad_points` value and
/// no optional fields.
pub struct HighlightAnnotation {
    pub quad_points: QuadPoints,
}

impl HighlightAnnotation {
    /// A highlight annotation over the given quadrilateral.
    pub fn new(quad_points: QuadPoints) -> (r: Self)
        ensures
            r == (HighlightAnnotation { quad_points }),
    {
        HighlightAnnotation { quad_points }
    }

    /// The entries of the subtype dictionary: exactly the `Subtype` tag
    /// and the `QuadPoints` array, in that order.
    pub open spec fn entries(self) -> Seq<(Seq<char>, ObjModel)> {
        seq![
            ("Subtype"@, ObjModel::Name("Highlight"@)),
            ("QuadPoints"@, self.quad_points.obj()),
        ]
    }

    /// Convert to a dictionary with exactly the keys `Subtype` and
    /// `QuadPoints`, in that order, and no others.
    pub fn to_dictionary(&self) -> (d: lopdf::Dictionary)
        ensures
            dict_model(d) == self.entries(),
    {
        let mut dict = dict_new();
        proof {
            lemma_keys_distinct();
        }
        dict_set(&mut dict, "Subtype", obj_name("Highlight"));
        let qp = self.quad_points.to_object();
        dict_set(&mut dict, "QuadPoints", qp);
        proof {
            assert(dict_model(dict) =~= self.entries());
        }
        dict
    }
}

} // verus!
