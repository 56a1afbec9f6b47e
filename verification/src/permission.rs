//! Granting permissions to roles and deciding whether a user may act.
//!
//! Whether a user may act is decided by `PermissionCheck`, which asks the
//! store one question at a time: the category the permission names, the
//! roles the user holds, and the roles that hold the permission, first for
//! the category itself and then, when no role holds it there, for the
//! resource as a whole.
use vstd::prelude::*;

use crate::permissions::{action_name, resource_name, Action, Resource};
use crate::resolvers::{resolve_category_reference, CategoryLookup};
use crate::role::{GetUserRolesInput, RolePermissionRow, RolePermissionRowView};
use crate::types::{Reference, ReferenceView};

verus! {

/// A permission as named in a request: the category may be given by id or slug.
#[derive(Debug)]
pub struct PermissionInput {
    pub resource_type: Resource,
    pub resource_category: Option<Reference>,
    pub action: Action,
}

/// Who asks to do what: the user (if logged in), the site, the page being
/// looked at, and the permission needed.
#[derive(Debug)]
pub struct CheckPermissionContext {
    pub user_id: Option<i64>,
    pub site_id: i64,
    pub page_reference: Option<Reference>,
    pub permission: PermissionInput,
}

/// The rows that grant a permission in a site: the resource, the category
/// (`None` for the resource as a whole) and the action.
#[derive(Debug, Clone, Copy, PartialEq, Eq, Structural)]
pub struct PermissionQuery {
    pub site_id: i64,
    pub resource: Resource,
    pub resource_category_id: Option<i64>,
    pub action: Action,
}

/// A row with these contents is one that `q` asks for.
pub open spec fn query_matches_view(q: PermissionQuery, row: RolePermissionRowView) -> bool {
    &&& row.site_id == q.site_id
    &&& row.resource_type == resource_name(q.resource)
    &&& row.resource_category_id == q.resource_category_id
    &&& row.action == action_name(q.action)
}

/// `row` is one that `q` asks for.
pub open spec fn query_matches(q: PermissionQuery, row: RolePermissionRow) -> bool {
    query_matches_view(q, row@)
}

impl PermissionQuery {
    /// Whether `row` is one the query asks for.
    pub fn matches(&self, row: &RolePermissionRow) -> (r: bool)
        ensures
            r == query_matches(*self, *row),
    {
        let resource = self.resource.to_string();
        let action = self.action.to_string();
        row.site_id == self.site_id && row.resource_type == resource && row.resource_category_id
            == self.resource_category_id && row.action == action
    }
}

/// The role ids of rows, in order.
pub open spec fn row_role_ids(rows: Seq<RolePermissionRow>) -> Seq<i64> {
    rows.map_values(|r: RolePermissionRow| r.role_id)
}

/// Some role of `granted` is one of `held`.
pub open spec fn shares_role(granted: Seq<i64>, held: Seq<i64>) -> bool {
    exists|i: int| 0 <= i < granted.len() && held.contains(#[trigger] granted[i])
}

/// Whether a user holding `held` may act. A user with no role may not. When
/// the permission names a category and some role holds it for that category,
/// those roles decide; otherwise the roles holding it for the resource as a
/// whole (`default`) decide. The user may act when they hold one of the
/// deciding roles.
pub open spec fn permission_granted(
    held: Seq<i64>,
    category: Option<i64>,
    specific: Seq<i64>,
    default: Seq<i64>,
) -> bool {
    let deciding = if category is Some && specific.len() > 0 {
        specific
    } else {
        default
    };
    held.len() > 0 && shares_role(deciding, held)
}

/// The category a check uses: none when the permission names none or its
/// resource has no categories, the id when given by id, and what the store
/// resolves the slug to otherwise.
pub open spec fn check_category(permission: PermissionInput, resolved: Option<i64>) -> Option<i64> {
    match permission.resource_category {
        None => None,
        Some(r) => if permission.resource_type == Resource::Page {
            match r@ {
                ReferenceView::Id(id) => Some(id),
                ReferenceView::Slug(_) => resolved,
            }
        } else {
            None
        },
    }
}

/// Where a check stands.
#[derive(Debug, Clone, Copy, PartialEq, Eq, Structural)]
pub enum CheckPhase {
    /// Waiting for the category slug to be resolved.
    AwaitCategory,
    /// Waiting for the roles the user holds.
    AwaitRoles,
    /// Waiting for the roles that hold the permission for the category.
    AwaitSpecific,
    /// Waiting for the roles that hold the permission for the whole resource.
    AwaitDefault,
    /// The answer has been given.
    Finished,
}

/// What the store is asked next, or the answer.
#[derive(Debug)]
pub enum CheckAction {
    /// The id of the category with this slug in the site, if any.
    ResolveCategory { site_id: i64, slug: String },
    /// The ids of all roles the user holds in the site.
    LoadUserRoles(GetUserRolesInput),
    /// The ids of the roles of the rows that the query asks for.
    QueryRoles(PermissionQuery),
    /// Whether the user may act.
    Done(bool),
}

/// The store's answer to the last question.
#[derive(Debug)]
pub enum CheckEvent {
    CategoryResolved(Option<i64>),
    UserRoles(Vec<i64>),
    RolesWithPermission(Vec<i64>),
}

/// A permission check in progress.
#[derive(Debug)]
pub struct PermissionCheck {
    site_id: i64,
    user_id: Option<i64>,
    page_reference: Option<Reference>,
    resource: Resource,
    action: Action,
    category: Option<i64>,
    held: Vec<i64>,
    phase: CheckPhase,
}

/// The state of a check.
pub struct CheckState {
    pub site_id: i64,
    pub user_id: Option<i64>,
    pub page_reference: Option<Reference>,
    pub resource: Resource,
    pub action: Action,
    pub category: Option<i64>,
    pub held: Seq<i64>,
    pub phase: CheckPhase,
}

pub enum CheckActionView {
    ResolveCategory { site_id: i64, slug: Seq<char> },
    LoadUserRoles(GetUserRolesInput),
    QueryRoles(PermissionQuery),
    Done(bool),
}

pub enum CheckEventView {
    CategoryResolved(Option<i64>),
    UserRoles(Seq<i64>),
    RolesWithPermission(Seq<i64>),
}

impl View for PermissionCheck {
    type V = CheckState;

    closed spec fn view(&self) -> CheckState {
        CheckState {
            site_id: self.site_id,
            user_id: self.user_id,
            page_reference: self.page_reference,
            resource: self.resource,
            action: self.action,
            category: self.category,
            held: self.held@,
            phase: self.phase,
        }
    }
}

impl View for CheckAction {
    type V = CheckActionView;

    open spec fn view(&self) -> CheckActionView {
        match self {
            CheckAction::ResolveCategory { site_id, slug } => CheckActionView::ResolveCategory {
                site_id: *site_id,
                slug: slug@,
            },
            CheckAction::LoadUserRoles(input) => CheckActionView::LoadUserRoles(*input),
            CheckAction::QueryRoles(q) => CheckActionView::QueryRoles(*q),
            CheckAction::Done(b) => CheckActionView::Done(*b),
        }
    }
}

impl View for CheckEvent {
    type V = CheckEventView;

    open spec fn view(&self) -> CheckEventView {
        match self {
            CheckEvent::CategoryResolved(c) => CheckEventView::CategoryResolved(*c),
            CheckEvent::UserRoles(r) => CheckEventView::UserRoles(r@),
            CheckEvent::RolesWithPermission(r) => CheckEventView::RolesWithPermission(r@),
        }
    }
}

/// The query for the permission of a check, for one category or for the
/// whole resource.
pub open spec fn check_query(s: CheckState, category: Option<i64>) -> PermissionQuery {
    PermissionQuery {
        site_id: s.site_id,
        resource: s.resource,
        resource_category_id: category,
        action: s.action,
    }
}

/// Asking for the roles the user holds.
pub open spec fn check_ask_roles(s: CheckState) -> (CheckState, CheckActionView) {
    (
        CheckState { phase: CheckPhase::AwaitRoles, ..s },
        CheckActionView::LoadUserRoles(
            GetUserRolesInput {
                site_id: s.site_id,
                user_id: s.user_id,
                page_reference: s.page_reference,
            },
        ),
    )
}

/// Giving the answer: whether the user holds one of the deciding roles.
pub open spec fn check_finish(s: CheckState, deciding: Seq<i64>) -> (CheckState, CheckActionView) {
    (
        CheckState { phase: CheckPhase::Finished, ..s },
        CheckActionView::Done(shares_role(deciding, s.held)),
    )
}

/// The first step: a category slug of a page permission is resolved first;
/// otherwise the user's roles are asked for at once.
pub open spec fn check_start(ctx: CheckPermissionContext) -> (CheckState, CheckActionView) {
    let s = CheckState {
        site_id: ctx.site_id,
        user_id: ctx.user_id,
        page_reference: ctx.page_reference,
        resource: ctx.permission.resource_type,
        action: ctx.permission.action,
        category: check_category(ctx.permission, None),
        held: Seq::empty(),
        phase: CheckPhase::AwaitCategory,
    };
    match ctx.permission.resource_category {
        Some(r) => if ctx.permission.resource_type == Resource::Page && r@ is Slug {
            (s, CheckActionView::ResolveCategory { site_id: ctx.site_id, slug: r@->Slug_0 })
        } else {
            check_ask_roles(s)
        },
        None => check_ask_roles(s),
    }
}

/// Whether `e` answers the question the check waits on.
pub open spec fn check_accepts(s: CheckState, e: CheckEventView) -> bool {
    match e {
        CheckEventView::CategoryResolved(_) => s.phase == CheckPhase::AwaitCategory,
        CheckEventView::UserRoles(_) => s.phase == CheckPhase::AwaitRoles,
        CheckEventView::RolesWithPermission(_) => s.phase == CheckPhase::AwaitSpecific || s.phase
            == CheckPhase::AwaitDefault,
    }
}

/// One step: what the check does with an answer.
pub open spec fn check_next(s: CheckState, e: CheckEventView) -> (CheckState, CheckActionView) {
    match e {
        CheckEventView::CategoryResolved(c) => check_ask_roles(CheckState { category: c, ..s }),
        CheckEventView::UserRoles(held) => {
            let s2 = CheckState { held, ..s };
            if held.len() == 0 {
                check_finish(s2, Seq::empty())
            } else if s.category is Some {
                (
                    CheckState { phase: CheckPhase::AwaitSpecific, ..s2 },
                    CheckActionView::QueryRoles(check_query(s, s.category)),
                )
            } else {
                (
                    CheckState { phase: CheckPhase::AwaitDefault, ..s2 },
                    CheckActionView::QueryRoles(check_query(s, None)),
                )
            }
        },
        CheckEventView::RolesWithPermission(granted) => {
            if s.phase == CheckPhase::AwaitSpecific && granted.len() == 0 {
                (
                    CheckState { phase: CheckPhase::AwaitDefault, ..s },
                    CheckActionView::QueryRoles(check_query(s, None)),
                )
            } else {
                check_finish(s, granted)
            }
        },
    }
}

/// What the store holds for one check: what the category slug resolves to,
/// the roles the user holds, and, for each category (or `None` for the whole
/// resource), the roles that hold the permission.
pub struct CheckWorld {
    pub resolved: Option<i64>,
    pub held: Seq<i64>,
    pub granted: spec_fn(Option<i64>) -> Seq<i64>,
}

/// The store's answer to a question.
pub open spec fn check_answer(w: CheckWorld, a: CheckActionView) -> CheckEventView {
    match a {
        CheckActionView::ResolveCategory { .. } => CheckEventView::CategoryResolved(w.resolved),
        CheckActionView::LoadUserRoles(_) => CheckEventView::UserRoles(w.held),
        CheckActionView::QueryRoles(q) => CheckEventView::RolesWithPermission(
            (w.granted)(q.resource_category_id),
        ),
        CheckActionView::Done(_) => CheckEventView::CategoryResolved(None),
    }
}

/// The answer a check reaches when each question is answered from `w`,
/// within `fuel` questions.
pub open spec fn check_run(s: CheckState, a: CheckActionView, w: CheckWorld, fuel: nat) -> Option<bool>
    decreases fuel,
{
    match a {
        CheckActionView::Done(b) => Some(b),
        _ => if fuel == 0 {
            None
        } else {
            let (s2, a2) = check_next(s, check_answer(w, a));
            check_run(s2, a2, w, (fuel - 1) as nat)
        },
    }
}

/// The answer that a check of `ctx` owes when the store holds `w`.
pub open spec fn expected_check(ctx: CheckPermissionContext, w: CheckWorld) -> bool {
    let category = check_category(ctx.permission, w.resolved);
    permission_granted(
        w.held,
        category,
        match category {
            Some(c) => (w.granted)(Some(c)),
            None => Seq::empty(),
        },
        (w.granted)(None),
    )
}

/// A check answered by the store reaches, within four questions, the answer
/// that `permission_granted` states.
pub proof fn lemma_check_run(ctx: CheckPermissionContext, w: CheckWorld)
    ensures
        ({
            let (s, a) = check_start(ctx);
            check_run(s, a, w, 4) == Some(expected_check(ctx, w))
        }),
{
    reveal_with_fuel(check_run, 5);
}

/// A user who holds more roles may do at least as much.
pub proof fn lemma_permission_monotone(
    held: Seq<i64>,
    more: Seq<i64>,
    category: Option<i64>,
    specific: Seq<i64>,
    default: Seq<i64>,
)
    requires
        forall|r: i64| held.contains(r) ==> more.contains(r),
        permission_granted(held, category, specific, default),
    ensures
        permission_granted(more, category, specific, default),
{
    let deciding = if category is Some && specific.len() > 0 {
        specific
    } else {
        default
    };
    let i = choose|i: int| 0 <= i < deciding.len() && held.contains(#[trigger] deciding[i]);
    assert(more.contains(deciding[i]));
    assert(more.len() > 0);
}

/// When some role holds the permission for the named category, the roles
/// that hold it for the whole resource do not matter.
pub proof fn lemma_category_overrides_default(
    held: Seq<i64>,
    category: i64,
    specific: Seq<i64>,
    default: Seq<i64>,
    other_default: Seq<i64>,
)
    requires
        specific.len() > 0,
    ensures
        permission_granted(held, Some(category), specific, default) == permission_granted(
            held,
            Some(category),
            specific,
            other_default,
        ),
        permission_granted(held, Some(category), specific, default) == (held.len() > 0
            && shares_role(specific, held)),
{
}

/// Whether some role of `granted` is one of `held`.
pub fn shares_any_role(granted: &Vec<i64>, held: &Vec<i64>) -> (r: bool)
    ensures
        r == shares_role(granted@, held@),
{
    let mut i: usize = 0;
    while i < granted.len()
        invariant
            i <= granted.len(),
            forall|k: int| 0 <= k < i ==> !held@.contains(#[trigger] granted@[k]),
        decreases granted.len() - i,
    {
        let g = granted[i];
        let mut j: usize = 0;
        while j < held.len()
            invariant
                i < granted.len(),
                g == granted@[i as int],
                j <= held.len(),
                forall|m: int| 0 <= m < j ==> held@[m] != g,
            decreases held.len() - j,
        {
            if held[j] == g {
                assert(held@.contains(granted@[i as int]));
                return true;
            }
            j = j + 1;
        }
        i = i + 1;
    }
    false
}

impl PermissionCheck {
    /// Starts a check.
    pub fn start(ctx: CheckPermissionContext) -> (r: (PermissionCheck, CheckAction))
        ensures
            (r.0@, r.1@) == check_start(ctx),
    {
        let CheckPermissionContext { user_id, site_id, page_reference, permission } = ctx;
        let PermissionInput { resource_type, resource_category, action } = permission;
        let check = PermissionCheck {
            site_id,
            user_id,
            page_reference,
            resource: resource_type,
            action,
            category: None,
            held: Vec::new(),
            phase: CheckPhase::AwaitCategory,
        };
        let mut check = check;
        match resource_category {
            None => {
                let a = check.ask_roles();
                (check, a)
            },
            Some(reference) => match resolve_category_reference(site_id, resource_type, reference) {
                CategoryLookup::Known(c) => {
                    check.category = c;
                    let a = check.ask_roles();
                    (check, a)
                },
                CategoryLookup::BySlug { site_id, slug } => {
                    (check, CheckAction::ResolveCategory { site_id, slug })
                },
            },
        }
    }

    fn ask_roles(&mut self) -> (a: CheckAction)
        ensures
            (final(self)@, a@) == check_ask_roles(old(self)@),
    {
        self.phase = CheckPhase::AwaitRoles;
        CheckAction::LoadUserRoles(
            GetUserRolesInput {
                site_id: self.site_id,
                user_id: self.user_id,
                page_reference: crate::types::clone_option_reference(&self.page_reference),
            },
        )
    }

    fn query(&self, category: Option<i64>) -> (q: PermissionQuery)
        ensures
            q == check_query(self@, category),
    {
        PermissionQuery {
            site_id: self.site_id,
            resource: self.resource,
            resource_category_id: category,
            action: self.action,
        }
    }

    /// Where the check stands.
    pub fn phase(&self) -> (r: CheckPhase)
        ensures
            r == self@.phase,
    {
        self.phase
    }

    /// Whether `event` answers the question the check waits on.
    pub fn accepts(&self, event: &CheckEvent) -> (r: bool)
        ensures
            r == check_accepts(self@, event@),
    {
        match event {
            CheckEvent::CategoryResolved(_) => matches!(self.phase, CheckPhase::AwaitCategory),
            CheckEvent::UserRoles(_) => matches!(self.phase, CheckPhase::AwaitRoles),
            CheckEvent::RolesWithPermission(_) => matches!(
                self.phase,
                CheckPhase::AwaitSpecific | CheckPhase::AwaitDefault
            ),
        }
    }

    /// Takes the store's answer and says what to ask next, or gives the answer.
    pub fn advance(&mut self, event: CheckEvent) -> (a: CheckAction)
        requires
            check_accepts(old(self)@, event@),
        ensures
            (final(self)@, a@) == check_next(old(self)@, event@),
    {
        match event {
            CheckEvent::CategoryResolved(c) => {
                self.category = c;
                self.ask_roles()
            },
            CheckEvent::UserRoles(held) => {
                self.held = held;
                if self.held.len() == 0 {
                    self.phase = CheckPhase::Finished;
                    proof {
                        assert(!shares_role(Seq::<i64>::empty(), self.held@));
                    }
                    CheckAction::Done(false)
                } else if self.category.is_some() {
                    self.phase = CheckPhase::AwaitSpecific;
                    CheckAction::QueryRoles(self.query(self.category))
                } else {
                    self.phase = CheckPhase::AwaitDefault;
                    CheckAction::QueryRoles(self.query(None))
                }
            },
            CheckEvent::RolesWithPermission(granted) => {
                if matches!(self.phase, CheckPhase::AwaitSpecific) && granted.len() == 0 {
                    self.phase = CheckPhase::AwaitDefault;
                    CheckAction::QueryRoles(self.query(None))
                } else {
                    self.phase = CheckPhase::Finished;
                    CheckAction::Done(shares_any_role(&granted, &self.held))
                }
            },
        }
    }
}

/// The row that grants `action` on `resource` (in a category, or for the
/// whole resource) to a role of a site.
pub open spec fn permission_row_view(
    site_id: i64,
    role_id: i64,
    resource: Resource,
    resource_category_id: Option<i64>,
    action: Action,
) -> RolePermissionRowView {
    RolePermissionRowView {
        role_id,
        site_id,
        resource_type: resource_name(resource),
        resource_category_id,
        action: action_name(action),
    }
}

/// The permission service: granting permissions to roles and checking them.
#[derive(Debug)]
pub struct PermissionService;

impl PermissionService {
    /// How the category of a permission given to a role is found.
    pub fn resolve_category(site_id: i64, permission: &PermissionInput) -> (r: CategoryLookup)
        ensures
            permission.resource_category is None ==> r == CategoryLookup::Known(None),
            permission.resource_category is Some ==> check_category(*permission, None) is Some
                ==> r == CategoryLookup::Known(check_category(*permission, None)),
            permission.resource_category is Some && permission.resource_type != Resource::Page
                ==> r == CategoryLookup::Known(None),
            (permission.resource_category is Some && permission.resource_type == Resource::Page
                && permission.resource_category->0@ is Slug) ==> (r matches CategoryLookup::BySlug {
                site_id: s,
                slug: t,
            } && s == site_id && t@ == permission.resource_category->0@->Slug_0),
    {
        match &permission.resource_category {
            None => CategoryLookup::Known(None),
            Some(reference) => resolve_category_reference(
                site_id,
                permission.resource_type,
                reference.clone(),
            ),
        }
    }

    /// The row that grants (or, when removed, granted) a permission to a
    /// role; the category is already resolved to an id.
    pub fn role_permission_row(
        site_id: i64,
        role_id: i64,
        resource: Resource,
        resource_category_id: Option<i64>,
        action: Action,
    ) -> (r: RolePermissionRow)
        ensures
            r.role_id == role_id,
            r.site_id == site_id,
            r.resource_type@ == resource_name(resource),
            r.resource_category_id == resource_category_id,
            r.action@ == action_name(action),
            r@ == permission_row_view(site_id, role_id, resource, resource_category_id, action),
    {
        RolePermissionRow {
            role_id,
            site_id,
            resource_type: resource.to_string(),
            resource_category_id,
            action: action.to_string(),
        }
    }

    /// The role ids of the rows a query returned.
    pub fn role_ids(rows: &Vec<RolePermissionRow>) -> (r: Vec<i64>)
        ensures
            r@ == row_role_ids(rows@),
    {
        let mut r: Vec<i64> = Vec::new();
        let mut i: usize = 0;
        while i < rows.len()
            invariant
                i <= rows.len(),
                r@ == row_role_ids(rows@.take(i as int)),
            decreases rows.len() - i,
        {
            r.push(rows[i].role_id);
            assert(row_role_ids(rows@.take(i + 1)) =~= row_role_ids(rows@.take(i as int)).push(
                rows@[i as int].role_id,
            ));
            i = i + 1;
        }
        assert(rows@.take(rows.len() as int) =~= rows@);
        r
    }

    /// Starts checking whether a user may act.
    pub fn check_user_can(ctx: CheckPermissionContext) -> (r: (PermissionCheck, CheckAction))
        ensures
            (r.0@, r.1@) == check_start(ctx),
    {
        PermissionCheck::start(ctx)
    }
}

} // verus!

verus! {

/// Whose roles a check asks for: the context's site, user and page.
pub open spec fn user_roles_input(ctx: CheckPermissionContext) -> GetUserRolesInput {
    GetUserRolesInput {
        site_id: ctx.site_id,
        user_id: ctx.user_id,
        page_reference: ctx.page_reference,
    }
}

/// The ids of a list of roles, in order.
pub open spec fn role_ids_of(roles: Seq<crate::role::Role>) -> Seq<i64> {
    roles.map_values(|r: crate::role::Role| r.role_id)
}

/// A check asks for the roles of its own user, site and page; when those
/// roles come from a role lookup (assigned and virtual roles) answered by
/// the store, the check's answer is `permission_granted` over their ids.
pub proof fn lemma_check_over_user_roles(
    ctx: CheckPermissionContext,
    rw: crate::user_roles::RolesWorld,
    resolved: Option<i64>,
    granted: spec_fn(Option<i64>) -> Seq<i64>,
)
    ensures
        ({
            let (s, a) = check_start(ctx);
            &&& a matches CheckActionView::LoadUserRoles(i) ==> i == user_roles_input(ctx)
            &&& a is ResolveCategory ==> check_next(s, CheckEventView::CategoryResolved(resolved)).1
                == CheckActionView::LoadUserRoles(user_roles_input(ctx))
        }),
        ({
            let input = user_roles_input(ctx);
            let roles = crate::user_roles::expected_user_roles(input, true, rw);
            let (rs, ra) = crate::user_roles::roles_start(input, true);
            let cw = CheckWorld { resolved, held: role_ids_of(roles), granted };
            let (s, a) = check_start(ctx);
            let category = check_category(ctx.permission, resolved);
            &&& crate::user_roles::roles_run(rs, ra, rw, 4) == Some(roles)
            &&& check_run(s, a, cw, 4) == Some(
                permission_granted(
                    role_ids_of(roles),
                    category,
                    match category {
                        Some(c) => granted(Some(c)),
                        None => Seq::empty(),
                    },
                    granted(None),
                ),
            )
        }),
{
    let input = user_roles_input(ctx);
    let roles = crate::user_roles::expected_user_roles(input, true, rw);
    crate::user_roles::lemma_user_roles_run(input, true, rw);
    lemma_check_run(ctx, CheckWorld { resolved, held: role_ids_of(roles), granted });
}

} // verus!

verus! {

/// The questions a check asks from state `s` when given `events` in turn.
pub open spec fn check_trace(s: CheckState, events: Seq<CheckEventView>) -> Seq<CheckActionView>
    decreases events.len(),
{
    if events.len() == 0 {
        Seq::empty()
    } else {
        let (s2, a) = check_next(s, events[0]);
        seq![a] + check_trace(s2, events.drop_first())
    }
}

/// Every question or answer of a check of `ctx` is about `ctx`: a slug is
/// resolved in its site, the roles asked for are those of its user, site
/// and page, and every permission query names its site, resource and action.
pub open spec fn about_context(ctx: CheckPermissionContext, a: CheckActionView) -> bool {
    match a {
        CheckActionView::ResolveCategory { site_id, .. } => site_id == ctx.site_id,
        CheckActionView::LoadUserRoles(input) => input.site_id == ctx.site_id && input.user_id
            == ctx.user_id && input.page_reference == ctx.page_reference,
        CheckActionView::QueryRoles(q) => q.site_id == ctx.site_id && q.resource
            == ctx.permission.resource_type && q.action == ctx.permission.action,
        CheckActionView::Done(_) => true,
    }
}

/// The parts of a check's state that come from its context.
pub open spec fn state_of_context(ctx: CheckPermissionContext, s: CheckState) -> bool {
    &&& s.site_id == ctx.site_id
    &&& s.user_id == ctx.user_id
    &&& s.page_reference == ctx.page_reference
    &&& s.resource == ctx.permission.resource_type
    &&& s.action == ctx.permission.action
}

proof fn lemma_check_trace_about_context(ctx: CheckPermissionContext, s: CheckState, events: Seq<CheckEventView>)
    requires
        state_of_context(ctx, s),
    ensures
        forall|i: int|
            0 <= i < check_trace(s, events).len() ==> about_context(ctx, #[trigger] check_trace(s, events)[i]),
    decreases events.len(),
{
    if events.len() > 0 {
        let (s2, a) = check_next(s, events[0]);
        assert(state_of_context(ctx, s2));
        assert(about_context(ctx, a));
        lemma_check_trace_about_context(ctx, s2, events.drop_first());
        let t = check_trace(s, events);
        let rest = check_trace(s2, events.drop_first());
        assert(t == seq![a] + rest);
        assert forall|i: int| 0 <= i < t.len() implies about_context(ctx, #[trigger] t[i]) by {
            if i > 0 {
                assert(t[i] == rest[i - 1]);
            }
        }
    }
}

/// Whatever the store answers, every question a check of `ctx` asks is about
/// `ctx`: category slugs are resolved in the context's site, the roles are
/// those of the context's user in its site and page, and each permission
/// query names the context's site, the resource and the action checked.
pub proof fn lemma_check_questions_about_context(ctx: CheckPermissionContext, events: Seq<CheckEventView>)
    ensures
        ({
            let (s, a) = check_start(ctx);
            &&& about_context(ctx, a)
            &&& forall|i: int|
                0 <= i < check_trace(s, events).len() ==> about_context(ctx, #[trigger] check_trace(s, events)[i])
        }),
{
    let (s, a) = check_start(ctx);
    assert(state_of_context(ctx, s));
    lemma_check_trace_about_context(ctx, s, events);
}

} // verus!
