//! Permissions: a resource, an optional resource category and an action,
//! written as `resource:action` or `resource:category:action`.
use vstd::prelude::*;
use vstd::string::*;

use crate::text::{
    chars_of, decimal_text, lemma_parse_decimal_text, spec_parse_i64, eq_ignore_ascii_case, fold_ascii, lemma_eq_ignore_ascii_case_equiv, lemma_positions_absent, lemma_positions_concat, lemma_positions_of, positions, positions_of,
    range_eq_ignore_ascii_case,
};
use crate::types::{option_reference_view, spec_reference, Reference, ReferenceView};

verus! {

/// The kinds of objects that permissions govern.
#[derive(Debug, Clone, Copy, PartialEq, Eq, Hash, Structural)]
pub enum Resource {
    Page,
    Role,
}

/// The actions that a permission allows.
#[derive(Debug, Clone, Copy, PartialEq, Eq, Hash, Structural)]
pub enum Action {
    View,
    Edit,
    Create,
    Delete,
    Rename,
    Assign,
    Remove,
}

/// The kebab-case name of a resource, as written and as stored.
pub open spec fn resource_name(r: Resource) -> Seq<char> {
    match r {
        Resource::Page => seq!['p', 'a', 'g', 'e'],
        Resource::Role => seq!['r', 'o', 'l', 'e'],
    }
}

/// The kebab-case name of an action, as written and as stored.
pub open spec fn action_name(a: Action) -> Seq<char> {
    match a {
        Action::View => seq!['v', 'i', 'e', 'w'],
        Action::Edit => seq!['e', 'd', 'i', 't'],
        Action::Create => seq!['c', 'r', 'e', 'a', 't', 'e'],
        Action::Delete => seq!['d', 'e', 'l', 'e', 't', 'e'],
        Action::Rename => seq!['r', 'e', 'n', 'a', 'm', 'e'],
        Action::Assign => seq!['a', 's', 's', 'i', 'g', 'n'],
        Action::Remove => seq!['r', 'e', 'm', 'o', 'v', 'e'],
    }
}

/// The resource whose name equals `s` up to ASCII case.
pub open spec fn spec_resource(s: Seq<char>) -> Option<Resource> {
    if eq_ignore_ascii_case(s, resource_name(Resource::Page)) {
        Some(Resource::Page)
    } else if eq_ignore_ascii_case(s, resource_name(Resource::Role)) {
        Some(Resource::Role)
    } else {
        None
    }
}

/// The action whose name equals `s` up to ASCII case.
pub open spec fn spec_action(s: Seq<char>) -> Option<Action> {
    if eq_ignore_ascii_case(s, action_name(Action::View)) {
        Some(Action::View)
    } else if eq_ignore_ascii_case(s, action_name(Action::Edit)) {
        Some(Action::Edit)
    } else if eq_ignore_ascii_case(s, action_name(Action::Create)) {
        Some(Action::Create)
    } else if eq_ignore_ascii_case(s, action_name(Action::Delete)) {
        Some(Action::Delete)
    } else if eq_ignore_ascii_case(s, action_name(Action::Rename)) {
        Some(Action::Rename)
    } else if eq_ignore_ascii_case(s, action_name(Action::Assign)) {
        Some(Action::Assign)
    } else if eq_ignore_ascii_case(s, action_name(Action::Remove)) {
        Some(Action::Remove)
    } else {
        None
    }
}

impl Resource {
    /// The resource's name.
    pub fn as_str(&self) -> (s: &'static str)
        ensures
            s@ == resource_name(*self),
    {
        match self {
            Resource::Page => {
                proof {
                    reveal_strlit("page");
                }
                "page"
            },
            Resource::Role => {
                proof {
                    reveal_strlit("role");
                }
                "role"
            },
        }
    }

    /// The resource's name, as an owned string.
    pub fn to_string(&self) -> (s: String)
        ensures
            s@ == resource_name(*self),
    {
        self.as_str().to_owned()
    }

    /// Reads a resource name, ignoring ASCII case.
    pub fn parse(s: &str) -> (r: Option<Resource>)
        ensures
            r == spec_resource(s@),
    {
        let chars = chars_of(s);
        assert(chars@.subrange(0, chars@.len() as int) =~= s@);
        Resource::parse_range(&chars, 0, chars.len())
    }

    /// Reads the resource named by `s[from..to]`.
    pub fn parse_range(s: &Vec<char>, from: usize, to: usize) -> (r: Option<Resource>)
        requires
            from <= to <= s.len(),
        ensures
            r == spec_resource(s@.subrange(from as int, to as int)),
    {
        proof {
            reveal_strlit("page");
            reveal_strlit("role");
            assert("page"@ =~= resource_name(Resource::Page));
            assert("role"@ =~= resource_name(Resource::Role));
        }
        if range_eq_ignore_ascii_case(s, from, to, "page") {
            Some(Resource::Page)
        } else if range_eq_ignore_ascii_case(s, from, to, "role") {
            Some(Resource::Role)
        } else {
            None
        }
    }
}

impl Action {
    /// The action's name.
    pub fn as_str(&self) -> (s: &'static str)
        ensures
            s@ == action_name(*self),
    {
        match self {
            Action::View => {
                proof {
                    reveal_strlit("view");
                }
                "view"
            },
            Action::Edit => {
                proof {
                    reveal_strlit("edit");
                }
                "edit"
            },
            Action::Create => {
                proof {
                    reveal_strlit("create");
                }
                "create"
            },
            Action::Delete => {
                proof {
                    reveal_strlit("delete");
                }
                "delete"
            },
            Action::Rename => {
                proof {
                    reveal_strlit("rename");
                }
                "rename"
            },
            Action::Assign => {
                proof {
                    reveal_strlit("assign");
                }
                "assign"
            },
            Action::Remove => {
                proof {
                    reveal_strlit("remove");
                }
                "remove"
            },
        }
    }

    /// The action's name, as an owned string.
    pub fn to_string(&self) -> (s: String)
        ensures
            s@ == action_name(*self),
    {
        self.as_str().to_owned()
    }

    /// Reads an action name, ignoring ASCII case.
    pub fn parse(s: &str) -> (r: Option<Action>)
        ensures
            r == spec_action(s@),
    {
        let chars = chars_of(s);
        assert(chars@.subrange(0, chars@.len() as int) =~= s@);
        Action::parse_range(&chars, 0, chars.len())
    }

    /// Reads the action named by `s[from..to]`.
    pub fn parse_range(s: &Vec<char>, from: usize, to: usize) -> (r: Option<Action>)
        requires
            from <= to <= s.len(),
        ensures
            r == spec_action(s@.subrange(from as int, to as int)),
    {
        proof {
            reveal_strlit("view");
            reveal_strlit("edit");
            reveal_strlit("create");
            reveal_strlit("delete");
            reveal_strlit("rename");
            reveal_strlit("assign");
            reveal_strlit("remove");
            assert("view"@ =~= action_name(Action::View));
            assert("edit"@ =~= action_name(Action::Edit));
            assert("create"@ =~= action_name(Action::Create));
            assert("delete"@ =~= action_name(Action::Delete));
            assert("rename"@ =~= action_name(Action::Rename));
            assert("assign"@ =~= action_name(Action::Assign));
            assert("remove"@ =~= action_name(Action::Remove));
        }
        if range_eq_ignore_ascii_case(s, from, to, "view") {
            Some(Action::View)
        } else if range_eq_ignore_ascii_case(s, from, to, "edit") {
            Some(Action::Edit)
        } else if range_eq_ignore_ascii_case(s, from, to, "create") {
            Some(Action::Create)
        } else if range_eq_ignore_ascii_case(s, from, to, "delete") {
            Some(Action::Delete)
        } else if range_eq_ignore_ascii_case(s, from, to, "rename") {
            Some(Action::Rename)
        } else if range_eq_ignore_ascii_case(s, from, to, "assign") {
            Some(Action::Assign)
        } else if range_eq_ignore_ascii_case(s, from, to, "remove") {
            Some(Action::Remove)
        } else {
            None
        }
    }
}

/// A permission: an action on a resource, optionally narrowed to one
/// category of that resource.
#[derive(Debug, PartialEq, Eq)]
pub struct Permission {
    pub resource: Resource,
    pub resource_category: Option<Reference>,
    pub action: Action,
}

/// What a `Permission` denotes.
pub struct PermissionView {
    pub resource: Resource,
    pub resource_category: Option<ReferenceView>,
    pub action: Action,
}

impl View for Permission {
    type V = PermissionView;

    open spec fn view(&self) -> PermissionView {
        PermissionView {
            resource: self.resource,
            resource_category: option_reference_view(self.resource_category),
            action: self.action,
        }
    }
}

impl Clone for Permission {
    fn clone(&self) -> (r: Self)
        ensures
            r == *self,
    {
        Permission {
            resource: self.resource,
            resource_category: crate::types::clone_option_reference(&self.resource_category),
            action: self.action,
        }
    }
}

/// Why a permission text was refused.
pub enum PermissionSyntaxError {
    /// Neither `resource:action` nor `resource:category:action`.
    Format,
    /// The resource part names no resource.
    Resource,
    /// The action part names no action.
    Action,
}

/// The message returned for each refusal.
pub open spec fn syntax_error_message(e: PermissionSyntaxError) -> Seq<char> {
    match e {
        PermissionSyntaxError::Format => "invalid permission format"@,
        PermissionSyntaxError::Resource => "invalid resource type"@,
        PermissionSyntaxError::Action => "invalid action type"@,
    }
}

/// A permission from its three parts; the resource is checked before the action.
pub open spec fn permission_from_parts(
    resource: Seq<char>,
    category: Option<ReferenceView>,
    action: Seq<char>,
) -> Result<PermissionView, PermissionSyntaxError> {
    match spec_resource(resource) {
        None => Err(PermissionSyntaxError::Resource),
        Some(r) => match spec_action(action) {
            None => Err(PermissionSyntaxError::Action),
            Some(a) => Ok(PermissionView { resource: r, resource_category: category, action: a }),
        },
    }
}

/// The meaning of a permission text. Split at `:`, two parts are a resource
/// and an action, three parts a resource, a category and an action; the
/// category is an id when it reads as an `i64` and a slug otherwise.
pub open spec fn spec_parse_permission(s: Seq<char>) -> Result<PermissionView, PermissionSyntaxError> {
    let p = positions_of(s, ':');
    if p.len() == 1 {
        permission_from_parts(s.subrange(0, p[0]), None, s.subrange(p[0] + 1, s.len() as int))
    } else if p.len() == 2 {
        permission_from_parts(
            s.subrange(0, p[0]),
            Some(spec_reference(s.subrange(p[0] + 1, p[1]))),
            s.subrange(p[1] + 1, s.len() as int),
        )
    } else {
        Err(PermissionSyntaxError::Format)
    }
}

impl Permission {
    /// Reads a permission written `resource:action` or
    /// `resource:category:action`; names are compared without regard to
    /// ASCII case.
    pub fn from_str(s: &str) -> (r: Result<Permission, &'static str>)
        ensures
            match spec_parse_permission(s@) {
                Ok(p) => r matches Ok(q) && q@ == p,
                Err(e) => r matches Err(m) && m@ == syntax_error_message(e),
            },
    {
        let chars = chars_of(s);
        let cols = positions(&chars, ':');
        proof {
            lemma_positions_of(chars@, ':');
        }
        let n = chars.len();
        if cols.len() == 1 {
            let c0 = cols[0];
            let resource = Resource::parse_range(&chars, 0, c0);
            let action = Action::parse_range(&chars, c0 + 1, n);
            Permission::from_parts(resource, None, action)
        } else if cols.len() == 2 {
            let c0 = cols[0];
            let c1 = cols[1];
            let resource = Resource::parse_range(&chars, 0, c0);
            let category = Reference::from_range(s, &chars, c0 + 1, c1);
            let action = Action::parse_range(&chars, c1 + 1, n);
            Permission::from_parts(resource, Some(category), action)
        } else {
            Err("invalid permission format")
        }
    }

    fn from_parts(resource: Option<Resource>, category: Option<Reference>, action: Option<Action>) -> (r:
        Result<Permission, &'static str>)
        ensures
            resource is None ==> (r matches Err(m) && m@ == "invalid resource type"@),
            resource is Some && action is None ==> (r matches Err(m) && m@ == "invalid action type"@),
            resource is Some && action is Some ==> (r matches Ok(p) && p.resource == resource->0
                && p.action == action->0 && p@.resource_category == option_reference_view(category)),
    {
        match resource {
            None => Err("invalid resource type"),
            Some(resource) => match action {
                None => Err("invalid action type"),
                Some(action) => Ok(Permission { resource, resource_category: category, action }),
            },
        }
    }
}

} // verus!

verus! {

impl core::str::FromStr for Permission {
    type Err = &'static str;

    fn from_str(s: &str) -> (r: Result<Permission, &'static str>)
        ensures
            match spec_parse_permission(s@) {
                Ok(p) => r matches Ok(q) && q@ == p,
                Err(e) => r matches Err(m) && m@ == syntax_error_message(e),
            },
    {
        Permission::from_str(s)
    }
}

/// Reading a resource's own name gives that resource back.
pub proof fn lemma_resource_name_roundtrip(r: Resource)
    ensures
        spec_resource(resource_name(r)) == Some(r),
{
    assert(eq_ignore_ascii_case(resource_name(r), resource_name(r)));
    if r == Resource::Role {
        assert(fold_ascii(resource_name(Resource::Role)[0]) != fold_ascii(resource_name(Resource::Page)[0]));
    }
}

/// Reading an action's own name gives that action back.
pub proof fn lemma_action_name_roundtrip(a: Action)
    ensures
        spec_action(action_name(a)) == Some(a),
{
    assert(eq_ignore_ascii_case(action_name(a), action_name(a)));
    let n = action_name(a);
    assert(fold_ascii(n[0]) == n[0] as u32);
    assert(fold_ascii(n[1]) == n[1] as u32);
    assert(fold_ascii(n[2]) == n[2] as u32);
}

} // verus!

verus! {

/// Names that differ only in ASCII case name the same resource and the same action.
pub proof fn lemma_names_case_insensitive(s: Seq<char>, t: Seq<char>)
    requires
        eq_ignore_ascii_case(s, t),
    ensures
        spec_resource(s) == spec_resource(t),
        spec_action(s) == spec_action(t),
{
    assert forall|n: Seq<char>| eq_ignore_ascii_case(s, n) == eq_ignore_ascii_case(t, n) by {
        lemma_eq_ignore_ascii_case_equiv(s, t, n);
        lemma_eq_ignore_ascii_case_equiv(t, s, n);
    }
}

/// A permission written out: the resource's name, the category text if
/// any, and the action's name, joined by `:`.
pub open spec fn permission_text(r: Resource, category: Option<Seq<char>>, a: Action) -> Seq<char> {
    match category {
        None => resource_name(r) + seq![':'] + action_name(a),
        Some(c) => resource_name(r) + seq![':'] + c + seq![':'] + action_name(a),
    }
}

/// A permission written out reads back as that permission, its category
/// read as an id or a slug, provided the category text holds no `:`.
pub proof fn lemma_permission_text_roundtrip(r: Resource, category: Option<Seq<char>>, a: Action)
    requires
        category matches Some(c) ==> forall|i: int| 0 <= i < c.len() ==> c[i] != ':',
    ensures
        spec_parse_permission(permission_text(r, category, a)) == Ok::<PermissionView, PermissionSyntaxError>(
            PermissionView {
                resource: r,
                resource_category: match category {
                    Some(c) => Some(spec_reference(c)),
                    None => None,
                },
                action: a,
            },
        ),
{
    let rn = resource_name(r);
    let an = action_name(a);
    let colon = seq![':'];
    lemma_resource_name_roundtrip(r);
    lemma_action_name_roundtrip(a);
    lemma_positions_absent(rn, ':');
    lemma_positions_absent(an, ':');
    assert(positions_of(colon, ':') =~= seq![0int]) by {
        reveal_with_fuel(positions_of, 2);
        assert(colon.drop_last() =~= Seq::<char>::empty());
        assert(colon.last() == ':');
    }
    lemma_positions_concat(rn, colon, ':');
    assert(positions_of(rn + colon, ':') =~= seq![rn.len() as int]);
    match category {
        None => {
            let s = rn + colon + an;
            lemma_positions_concat(rn + colon, an, ':');
            assert(positions_of(s, ':') =~= seq![rn.len() as int]);
            assert(s.subrange(0, rn.len() as int) =~= rn);
            assert(s.subrange(rn.len() as int + 1, s.len() as int) =~= an);
        },
        Some(c) => {
            lemma_positions_absent(c, ':');
            let s1 = rn + colon + c;
            lemma_positions_concat(rn + colon, c, ':');
            assert(positions_of(s1, ':') =~= seq![rn.len() as int]);
            let s2 = s1 + colon;
            lemma_positions_concat(s1, colon, ':');
            assert(positions_of(s2, ':') =~= seq![rn.len() as int, s1.len() as int]);
            let s = s2 + an;
            lemma_positions_concat(s2, an, ':');
            assert(positions_of(s, ':') =~= seq![rn.len() as int, s1.len() as int]);
            assert(s.subrange(0, rn.len() as int) =~= rn);
            assert(s.subrange(rn.len() as int + 1, s1.len() as int) =~= c);
            assert(s.subrange(s1.len() as int + 1, s.len() as int) =~= an);
        },
    }
}

} // verus!

verus! {

/// A permission written with the decimal text of an id as its category
/// reads back with that id as its category.
pub proof fn lemma_permission_id_roundtrip(r: Resource, id: i64, a: Action)
    ensures
        spec_parse_permission(permission_text(r, Some(decimal_text(id as int)), a)) == Ok::<
            PermissionView,
            PermissionSyntaxError,
        >(PermissionView { resource: r, resource_category: Some(ReferenceView::Id(id)), action: a }),
{
    lemma_parse_decimal_text(id);
    lemma_permission_text_roundtrip(r, Some(decimal_text(id as int)), a);
}

} // verus!

verus! {

/// A permission written with a category text that holds no `:` and does
/// not read as an `i64` reads back with that text, unchanged, as the slug
/// of its category.
pub proof fn lemma_permission_slug_roundtrip(r: Resource, c: Seq<char>, a: Action)
    requires
        forall|i: int| 0 <= i < c.len() ==> c[i] != ':',
        spec_parse_i64(c) is None,
    ensures
        spec_parse_permission(permission_text(r, Some(c), a)) == Ok::<PermissionView, PermissionSyntaxError>(
            PermissionView { resource: r, resource_category: Some(ReferenceView::Slug(c)), action: a },
        ),
{
    crate::types::lemma_reference_reading(c);
    lemma_permission_text_roundtrip(r, Some(c), a);
}

} // verus!
