//! Text-note annotations: their optional fields, their two state-model
//! families, and their conversion to the subtype dictionary.

use vstd::prelude::*;

use crate::obj::ObjModel;
use crate::obj::dict_extend;
use crate::obj::dict_model;
use crate::obj::dict_new;
use crate::obj::dict_set;
use crate::obj::fresh_keys;
use crate::obj::has_key;
use crate::obj::lemma_has_key_append;
use crate::obj::lemma_keys_distinct;
use crate::obj::obj_bool;
use crate::obj::obj_name;

verus! {

/// Marking workflow state of a text annotation.
#[derive(Clone, Copy, Debug, PartialEq, Eq, Structural)]
pub enum TextAnnotationMarkedState {
    Marked,
    Unmarked,
}

impl Default for TextAnnotationMarkedState {
    /// The default marking state is `Unmarked`.
    fn default() -> (r: Self)
        ensures
            r == TextAnnotationMarkedState::Unmarked,
    {
        TextAnnotationMarkedState::Unmarked
    }
}

impl TextAnnotationMarkedState {
    /// The name under which this state appears in the output.
    pub open spec fn state_name(self) -> Seq<char> {
        match self {
            TextAnnotationMarkedState::Marked => "Marked"@,
            TextAnnotationMarkedState::Unmarked => "Unmarked"@,
        }
    }
}

/// Review workflow state of a text annotation. `NoneState` is the
/// member that appears in the output under the name `None`.
#[derive(Clone, Copy, Debug, PartialEq, Eq, Structural)]
pub enum TextAnnotationReviewState {
    Accepted,
    Rejected,
    Cancelled,
    Completed,
    NoneState,
}

impl Default for TextAnnotationReviewState {
    /// The default review state is `None`.
    fn default() -> (r: Self)
        ensures
            r == TextAnnotationReviewState::NoneState,
    {
        TextAnnotationReviewState::NoneState
    }
}

impl TextAnnotationReviewState {
    /// The name under which this state appears in the output.
    pub open spec fn state_name(self) -> Seq<char> {
        match self {
            TextAnnotationReviewState::Accepted => "Accepted"@,
            TextAnnotationReviewState::Rejected => "Rejected"@,
            TextAnnotationReviewState::Cancelled => "Cancelled"@,
            TextAnnotationReviewState::Completed => "Completed"@,
            TextAnnotationReviewState::NoneState => "None"@,
        }
    }
}

/// The state model of a text annotation: exactly one state out of
/// exactly one of the two families.
#[derive(Clone, Copy, Debug, PartialEq, Eq, Structural)]
pub enum TextAnnotationStateModel {
    Marked(TextAnnotationMarkedState),
    Review(TextAnnotationReviewState),
}

impl TextAnnotationStateModel {
    /// The two entries a state model writes: the family name under
    /// `StateModel`, then the member name under `State`.
    pub open spec fn entries(self) -> Seq<(Seq<char>, ObjModel)> {
        match self {
            TextAnnotationStateModel::Marked(m) => seq![
                ("StateModel"@, ObjModel::Name("Marked"@)),
                ("State"@, ObjModel::Name(m.state_name())),
            ],
            TextAnnotationStateModel::Review(r) => seq![
                ("StateModel"@, ObjModel::Name("Review"@)),
                ("State"@, ObjModel::Name(r.state_name())),
            ],
        }
    }

    /// Convert to a dictionary with exactly the keys `StateModel` and
    /// `State`, in that order, holding the names of the active family
    /// and of the selected member.
    pub fn to_dictionary(&self) -> (d: lopdf::Dictionary)
        ensures
            dict_model(d) == self.entries(),
    {
        let mut dict = dict_new();
        proof {
            lemma_keys_distinct();
        }
        match self {
            TextAnnotationStateModel::Marked(marked) => {
                dict_set(&mut dict, "StateModel", obj_name("Marked"));
                let state: &str = match marked {
                    TextAnnotationMarkedState::Marked => "Marked",
                    TextAnnotationMarkedState::Unmarked => "Unmarked",
                };
                dict_set(&mut dict, "State", obj_name(state));
            }
            TextAnnotationStateModel::Review(review) => {
                dict_set(&mut dict, "StateModel", obj_name("Review"));
                let state: &str = match review {
                    TextAnnotationReviewState::Accepted => "Accepted",
                    TextAnnotationReviewState::Rejected => "Rejected",
                    TextAnnotationReviewState::Cancelled => "Cancelled",
                    TextAnnotationReviewState::Completed => "Completed",
                    TextAnnotationReviewState::NoneState => "None",
                };
                dict_set(&mut dict, "State", obj_name(state));
            }
        }
        proof {
            assert(dict_model(dict) =~= self.entries());
        }
        dict
    }
}

/// A text annotation with no optional field set converts to exactly
/// `{Subtype: Text}`. Setting any subset of the three optional fields
/// adds exactly those fields' entries: each field's contribution
/// depends on that field alone, so the fields do not interact.
pub proof fn lemma_text_fields_independent(a: TextAnnotation, b: TextAnnotation)
    ensures
        a.entries() == seq![("Subtype"@, ObjModel::Name("Text"@))] + a.open_entries()
            + a.name_entries() + a.state_entries(),
        a.open == b.open ==> a.open_entries() == b.open_entries(),
        a.name == b.name ==> a.name_entries() == b.name_entries(),
        a.state == b.state ==> a.state_entries() == b.state_entries(),
        a.open is None && a.name is None && a.state is None ==> a.entries() =~= seq![
            ("Subtype"@, ObjModel::Name("Text"@)),
        ],
{
}

/// A text-note annotation: every field is optional, and a field that is
/// not set is omitted from the output entirely.
#[derive(Clone, Debug)]
pub struct TextAnnotation {
    pub open: Option<bool>,
    pub name: Option<String>,
    pub state: Option<TextAnnotationStateModel>,
}

impl Default for TextAnnotation {
    /// A text annotation with no optional field set.
    fn default() -> (r: Self)
        ensures
            r == (TextAnnotation { open: None, name: None, state: None }),
    {
        TextAnnotation { open: None, name: None, state: None }
    }
}

impl TextAnnotation {
    /// The entry the `open` flag contributes, if set.
    pub open spec fn open_entries(self) -> Seq<(Seq<char>, ObjModel)> {
        match self.open {
            Some(b) => seq![("Open"@, ObjModel::Bool(b))],
            None => Seq::empty(),
        }
    }

    /// The entry the icon `name` contributes, if set.
    pub open spec fn name_entries(self) -> Seq<(Seq<char>, ObjModel)> {
        match self.name {
            Some(n) => seq![("Name"@, ObjModel::Name(n@))],
            None => Seq::empty(),
        }
    }

    /// The two entries the state model contributes, if set.
    pub open spec fn state_entries(self) -> Seq<(Seq<char>, ObjModel)> {
        match self.state {
            Some(s) => s.entries(),
            None => Seq::empty(),
        }
    }

    /// The entries of the subtype dictionary: the `Subtype` tag first,
    /// then the contribution of each optional field, in a fixed order.
    pub open spec fn entries(self) -> Seq<(Seq<char>, ObjModel)> {
        seq![("Subtype"@, ObjModel::Name("Text"@))] + self.open_entries() + self.name_entries()
            + self.state_entries()
    }

    /// A text annotation with no optional field set.
    pub fn new() -> (r: Self)
        ensures
            r == (TextAnnotation { open: None, name: None, state: None }),
    {
        Self::default()
    }

    /// Set the open flag; the other fields are unchanged.
    pub fn open(self, open: bool) -> (r: Self)
        ensures
            r == (TextAnnotation { open: Some(open), ..self }),
    {
        TextAnnotation { open: Some(open), ..self }
    }

    /// Set the icon name; the other fields are unchanged.
    pub fn name(self, name: String) -> (r: Self)
        ensures
            r == (TextAnnotation { name: Some(name), ..self }),
    {
        TextAnnotation { name: Some(name), ..self }
    }

    /// Set the state model; the other fields are unchanged.
    pub fn state(self, state: TextAnnotationStateModel) -> (r: Self)
        ensures
            r == (TextAnnotation { state: Some(state), ..self }),
    {
        TextAnnotation { state: Some(state), ..self }
    }

    /// Convert to the subtype dictionary: the `Subtype` tag first, then
    /// each optional field that is set, then — if a state model is set —
    /// its two entries merged flat into the same dictionary.
    pub fn to_dictionary(&self) -> (d: lopdf::Dictionary)
        ensures
            dict_model(d) == self.entries(),
    {
        let ghost base = seq![("Subtype"@, ObjModel::Name("Text"@))];
        let mut dict = dict_new();
        proof {
            lemma_keys_distinct();
        }
        dict_set(&mut dict, "Subtype", obj_name("Text"));
        if let Some(open) = self.open {
            dict_set(&mut dict, "Open", obj_bool(open));
        }
        proof {
            assert(dict_model(dict) =~= base + self.open_entries());
        }
        if let Some(name) = &self.name {
            proof {
                lemma_has_key_append(base, self.open_entries(), "Name"@);
            }
            dict_set(&mut dict, "Name", obj_name(name.as_str()));
        }
        proof {
            assert(dict_model(dict) =~= base + self.open_entries() + self.name_entries());
        }
        if let Some(state) = &self.state {
            let sd = state.to_dictionary();
            proof {
                lemma_has_key_append(base + self.open_entries(), self.name_entries(), "StateModel"@);
                lemma_has_key_append(base, self.open_entries(), "StateModel"@);
                lemma_has_key_append(base + self.open_entries(), self.name_entries(), "State"@);
                lemma_has_key_append(base, self.open_entries(), "State"@);
                assert(!has_key(dict_model(dict), "StateModel"@));
                assert(!has_key(dict_model(dict), "State"@));
                assert(fresh_keys(dict_model(dict), dict_model(sd)));
            }
            dict_extend(&mut dict, &sd);
        }
        proof {
            assert(dict_model(dict) =~= self.entries());
        }
        dict
    }
}

} // verus!
