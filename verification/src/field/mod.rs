//! Typed field selection: per-resource enumerations of selectable fields,
//! each with a canonical wire token, a default selection, and an
//! authentication requirement.
//!
//! Simple fields serialize to a single token; composite fields carry a nested
//! selection over another resource kind's field set and serialize to
//! `token(sub1,sub2,...)`, with the parenthesized group always present, even
//! when the nested selection is empty.

use vstd::prelude::*;

use crate::wire::join_comma;
use crate::wire::lemma_join_sep_push;

mod language_field;
mod part_content_field;
mod part_field;
mod part_reference_field;
mod part_stub_field;
mod story_field;
mod text_url_field;
mod user_field;
mod user_stub_field;

pub use language_field::LanguageField;
pub use part_field::lemma_part_selections_ungated;
pub use part_stub_field::lemma_part_stub_default_ungated;
pub use story_field::lemma_story_selections_ungated;
pub use user_field::lemma_user_selections_ungated;
pub use part_content_field::PartContentField;
pub use part_field::PartField;
pub use part_reference_field::PartReferenceField;
pub use part_stub_field::PartStubField;
pub use story_field::StoryField;
pub use text_url_field::TextUrlField;
pub use user_field::UserField;
pub use user_stub_field::UserStubField;

verus! {

/// A field identifier with a canonical wire-format string.
pub trait WireSerialize: Sized {
    /// The wire form of this field: a single token for a simple field; for a
    /// composite field, the token followed by the parenthesized, comma-joined
    /// wire forms of its sub-selection.
    spec fn wire(&self) -> Seq<char>;

    /// Serializes the field to its wire form. A pure function of the field
    /// identifier alone.
    fn serialize(&self) -> (r: String)
        ensures
            r@ == self.wire(),
    ;
}

/// The wire forms of the entries of a selection, in order.
pub open spec fn wires_of<T: WireSerialize>(s: Seq<T>) -> Seq<Seq<char>> {
    s.map_values(|f: T| f.wire())
}

/// Serializes each entry of a selection and joins the tokens with commas.
pub fn join_serialized<T: WireSerialize>(v: &Vec<T>) -> (r: String)
    ensures
        r@ == join_comma(wires_of(v@)),
{
    let mut r = String::new();
    let mut i: usize = 0;
    while i < v.len()
        invariant
            i <= v.len(),
            r@ == join_comma(wires_of(v@.take(i as int))),
        decreases v.len() - i,
    {
        if i > 0 {
            r.append(",");
        }
        let s = v[i].serialize();
        r.append(s.as_str());
        proof {
            let w = wires_of(v@.take(i as int));
            let x = v@[i as int].wire();
            assert(wires_of(v@.take(i as int + 1)) =~= w.push(x));
            lemma_join_sep_push(w, ","@, x);
            assert(r@ =~= join_comma(wires_of(v@.take(i as int + 1))));
        }
        i += 1;
    }
    proof {
        assert(v@.take(v@.len() as int) =~= v@);
    }
    r
}

/// A composite field's parenthesized group joins the sub-selection's wire
/// forms with single commas: for a sub-selection `[a, b]` it is exactly
/// `a.wire() + "," + b.wire()`, and for an empty sub-selection it is empty
/// (the group itself is still written).
pub proof fn lemma_sub_selection_group<T: WireSerialize>(a: T, b: T)
    ensures
        join_comma(wires_of(seq![a, b])) == a.wire() + ","@ + b.wire(),
        join_comma(wires_of(Seq::<T>::empty())) == Seq::<char>::empty(),
{
    assert(wires_of(seq![a, b]) =~= seq![a.wire(), b.wire()]);
    assert(wires_of(Seq::<T>::empty()) =~= Seq::<Seq<char>>::empty());
    assert(seq![a.wire(), b.wire()].drop_first() =~= seq![b.wire()]);
    assert(crate::wire::join_sep(seq![b.wire()], ","@) == b.wire());
    assert(join_comma(seq![a.wire(), b.wire()]) == a.wire() + ","@ + b.wire());
}

/// A field enum that identifies which of its fields require authentication.
pub trait AuthRequiredFields: Sized {
    /// Whether requesting this field requires the client to be authenticated.
    /// A property of the field identifier alone, fixed for the program's
    /// lifetime.
    spec fn spec_auth_required(&self) -> bool;

    /// Checks whether this field requires authentication: a pure lookup.
    fn auth_required(&self) -> (r: bool)
        ensures
            r == self.spec_auth_required(),
    ;

    /// The fields of this kind that require authentication; empty for kinds
    /// that have no protected fields.
    fn auth_required_fields() -> (r: Vec<Self>)
        ensures
            forall|i: int|
                0 <= i < r@.len() ==> (#[trigger] r@[i]).spec_auth_required(),
            forall|f: Self| #[trigger] f.spec_auth_required() ==> r@.contains(f),
    ;
}

/// A field enum with a default selection, used when a caller does not say
/// which fields it wants. The default is never empty and never includes an
/// auth-required field.
pub trait DefaultableFields: AuthRequiredFields {
    /// Characterizes the fixed default selection for this resource kind:
    /// holds exactly of selections whose entries are the default ones, in
    /// the defined order (nested selections compared by their views).
    spec fn is_default_selection(s: Seq<Self>) -> bool;

    /// Returns the default selection: non-empty, in its defined order, free
    /// of auth-required fields.
    fn default_fields() -> (r: Vec<Self>)
        ensures
            Self::is_default_selection(r@),
            r@.len() > 0,
            forall|i: int|
                0 <= i < r@.len() ==> !(#[trigger] r@[i]).spec_auth_required(),
    ;
}

} // verus!
