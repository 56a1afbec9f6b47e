//! Shared value types: references to objects by id or by slug, and optional
//! updates.
use vstd::prelude::*;
use vstd::string::*;

use crate::text::{chars_of, parse_i64_range, spec_parse_i64};

verus! {

/// A reference to an object, either by its numeric id or by its slug.
#[derive(Debug, PartialEq, Eq)]
pub enum Reference {
    Id(i64),
    Slug(String),
}

/// What a `Reference` denotes.
pub enum ReferenceView {
    Id(i64),
    Slug(Seq<char>),
}

impl View for Reference {
    type V = ReferenceView;

    open spec fn view(&self) -> ReferenceView {
        match self {
            Reference::Id(id) => ReferenceView::Id(*id),
            Reference::Slug(slug) => ReferenceView::Slug(slug@),
        }
    }
}

impl Clone for Reference {
    fn clone(&self) -> (r: Self)
        ensures
            r == *self,
    {
        match self {
            Reference::Id(id) => Reference::Id(*id),
            Reference::Slug(slug) => Reference::Slug(slug.clone()),
        }
    }
}

/// How a text that names an object is read: as an id when it parses as an
/// `i64`, otherwise as a slug holding the text unchanged.
pub open spec fn spec_reference(s: Seq<char>) -> ReferenceView {
    match spec_parse_i64(s) {
        Some(id) => ReferenceView::Id(id),
        None => ReferenceView::Slug(s),
    }
}

/// The view of an optional reference.
pub open spec fn option_reference_view(r: Option<Reference>) -> Option<ReferenceView> {
    match r {
        Some(r) => Some(r@),
        None => None,
    }
}

/// Copies an optional reference.
pub fn clone_option_reference(r: &Option<Reference>) -> (c: Option<Reference>)
    ensures
        c == *r,
{
    match r {
        Some(r) => Some(r.clone()),
        None => None,
    }
}

impl Reference {
    /// Reads `text[from..to]` (with `chars` the characters of `text`) as a reference.
    pub fn from_range(text: &str, chars: &Vec<char>, from: usize, to: usize) -> (r: Reference)
        requires
            chars@ == text@,
            from <= to <= chars.len(),
        ensures
            r@ == spec_reference(text@.subrange(from as int, to as int)),
            spec_parse_i64(text@.subrange(from as int, to as int)) matches Some(id) ==> r@
                == ReferenceView::Id(id),
            spec_parse_i64(text@.subrange(from as int, to as int)) is None ==> r@ == ReferenceView::Slug(
                text@.subrange(from as int, to as int),
            ),
    {
        match parse_i64_range(chars, from, to) {
            Some(id) => Reference::Id(id),
            None => {
                let slug = text.substring_char(from, to).to_owned();
                Reference::Slug(slug)
            },
        }
    }

    /// Reads a whole text as a reference: an id when it parses as an `i64`,
    /// otherwise a slug.
    pub fn from_text(text: &str) -> (r: Reference)
        ensures
            r@ == spec_reference(text@),
            spec_parse_i64(text@) matches Some(id) ==> r@ == ReferenceView::Id(id),
            spec_parse_i64(text@) is None ==> r@ == ReferenceView::Slug(text@),
    {
        let chars = chars_of(text);
        let r = Reference::from_range(text, &chars, 0, chars.len());
        assert(text@.subrange(0, text@.len() as int) =~= text@);
        r
    }

    /// The id, when the reference is by id.
    pub fn id(&self) -> (r: Option<i64>)
        ensures
            r == match self@ {
                ReferenceView::Id(id) => Some(id),
                ReferenceView::Slug(_) => None,
            },
    {
        match self {
            Reference::Id(id) => Some(*id),
            Reference::Slug(_) => None,
        }
    }
}

/// A text that reads as an `i64` names that id; any other text is a slug
/// holding the text unchanged.
pub proof fn lemma_reference_reading(s: Seq<char>)
    ensures
        spec_parse_i64(s) matches Some(id) ==> spec_reference(s) == ReferenceView::Id(id),
        spec_parse_i64(s) is None ==> spec_reference(s) == ReferenceView::Slug(s),
        spec_reference(s) matches ReferenceView::Slug(t) ==> t == s,
{
}

/// A field of an update: either a new value, or left as it is.
#[derive(Debug, PartialEq, Eq, Clone)]
pub enum Maybe<T> {
    Given(T),
    Unset,
}

} // verus!
