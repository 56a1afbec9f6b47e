//! Turning a category reference into a category id.
use vstd::prelude::*;

use crate::permissions::Resource;
use crate::types::{Reference, ReferenceView};

verus! {

/// The outcome of reading a category reference: either the id is known
/// already, or the category must be looked up by its slug in a site.
#[derive(Debug, PartialEq, Eq)]
pub enum CategoryLookup {
    Known(Option<i64>),
    BySlug { site_id: i64, slug: String },
}

/// Resolves references to page categories.
#[derive(Debug, Clone, Copy)]
pub struct PageCategoryResolver;

impl PageCategoryResolver {
    /// An id is its own answer; a slug is looked up in the site.
    pub fn resolve(site_id: i64, reference: Reference) -> (r: CategoryLookup)
        ensures
            match reference@ {
                ReferenceView::Id(id) => r == CategoryLookup::Known(Some(id)),
                ReferenceView::Slug(slug) => r matches CategoryLookup::BySlug { site_id: s, slug: t }
                    && s == site_id && t@ == slug,
            },
    {
        match reference {
            Reference::Id(id) => CategoryLookup::Known(Some(id)),
            Reference::Slug(slug) => CategoryLookup::BySlug { site_id, slug },
        }
    }
}

/// Resolves a category reference for a resource type. Only pages have
/// categories; for any other resource the category is `None`.
pub fn resolve_category_reference(site_id: i64, resource_type: Resource, reference: Reference) -> (r:
    CategoryLookup)
    ensures
        resource_type == Resource::Page ==> match reference@ {
            ReferenceView::Id(id) => r == CategoryLookup::Known(Some(id)),
            ReferenceView::Slug(slug) => r matches CategoryLookup::BySlug { site_id: s, slug: t }
                && s == site_id && t@ == slug,
        },
        resource_type != Resource::Page ==> r == CategoryLookup::Known(None),
{
    match resource_type {
        Resource::Page => PageCategoryResolver::resolve(site_id, reference),
        _ => CategoryLookup::Known(None),
    }
}

} // verus!
