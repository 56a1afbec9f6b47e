//! Roles: their records, the inputs of the role operations, the rows those
//! operations write, and which roles a user holds in a site.
use vstd::prelude::*;

use crate::permissions::{
    action_name, resource_name, spec_action, spec_resource, Action, Permission, PermissionView,
    Resource,
};
use crate::types::{Maybe, Reference, ReferenceView};

verus! {

/// A role of a site, as stored. Times are nanoseconds since the Unix epoch (UTC).
#[derive(Debug, PartialEq, Eq)]
pub struct Role {
    pub role_id: i64,
    pub site_id: i64,
    pub name: String,
    pub description: String,
    pub is_virtual: bool,
    pub is_system: bool,
    pub level: i32,
    pub created_at: i128,
    pub updated_at: Option<i128>,
    pub deleted_at: Option<i128>,
}

impl Clone for Role {
    fn clone(&self) -> (r: Self)
        ensures
            r == *self,
    {
        Role {
            role_id: self.role_id,
            site_id: self.site_id,
            name: self.name.clone(),
            description: self.description.clone(),
            is_virtual: self.is_virtual,
            is_system: self.is_system,
            level: self.level,
            created_at: self.created_at,
            updated_at: self.updated_at,
            deleted_at: self.deleted_at,
        }
    }
}

/// Copies a list of roles.
pub fn clone_roles(roles: &Vec<Role>) -> (r: Vec<Role>)
    ensures
        r@ == roles@,
{
    let mut r: Vec<Role> = Vec::new();
    let mut i: usize = 0;
    while i < roles.len()
        invariant
            i <= roles.len(),
            r@ == roles@.take(i as int),
        decreases roles.len() - i,
    {
        r.push(roles[i].clone());
        assert(roles@.take(i as int).push(roles@[i as int]) =~= roles@.take(i + 1));
        i = i + 1;
    }
    assert(roles@.take(roles.len() as int) =~= roles@);
    r
}

/// The input of role creation.
#[derive(Debug, Clone)]
pub struct CreateRoleInput {
    pub site_id: i64,
    pub name: String,
    pub description: Option<String>,
    pub is_virtual: bool,
    pub is_system: bool,
    pub level: i32,
}

/// The result of role creation.
#[derive(Debug, Clone, Copy, PartialEq, Eq)]
pub struct CreateRoleOutput {
    pub role_id: i64,
}

/// The input of a role update: each field is either a new value or left as it is.
#[derive(Debug, Clone)]
pub struct UpdateRoleInput {
    pub name: Maybe<String>,
    pub description: Maybe<String>,
    pub level: Maybe<i32>,
    pub permissions: Maybe<Vec<Permission>>,
}

/// The input of granting a role to a user. `expires_at` is in nanoseconds
/// since the Unix epoch (UTC).
#[derive(Debug, Clone, Copy, PartialEq, Eq)]
pub struct GrantUserRoleInput {
    pub user_id: i64,
    pub role_id: i64,
    pub assigning_user_id: i64,
    pub expires_at: Option<i128>,
}

/// Whose roles are asked for: a site, the user if one is logged in, and the
/// page being looked at, if any.
#[derive(Debug)]
pub struct GetUserRolesInput {
    pub site_id: i64,
    pub user_id: Option<i64>,
    pub page_reference: Option<Reference>,
}

impl Clone for GetUserRolesInput {
    fn clone(&self) -> (r: Self)
        ensures
            r == *self,
    {
        GetUserRolesInput {
            site_id: self.site_id,
            user_id: self.user_id,
            page_reference: crate::types::clone_option_reference(&self.page_reference),
        }
    }
}

/// A role row to insert: a role without its id, which the store assigns.
#[derive(Debug, PartialEq, Eq)]
pub struct NewRole {
    pub site_id: i64,
    pub name: String,
    pub description: String,
    pub is_virtual: bool,
    pub is_system: bool,
    pub level: i32,
    pub created_at: i128,
    pub updated_at: Option<i128>,
}

/// The columns that a role update writes; `None` leaves a column as it is.
#[derive(Debug, PartialEq, Eq)]
pub struct RoleChanges {
    pub role_id: i64,
    pub name: Option<String>,
    pub description: Option<String>,
    pub level: Option<i32>,
    pub updated_at: i128,
}

/// A row granting a permission to a role. Resource and action are stored by name.
#[derive(Debug, PartialEq, Eq)]
pub struct RolePermissionRow {
    pub role_id: i64,
    pub site_id: i64,
    pub resource_type: String,
    pub resource_category_id: Option<i64>,
    pub action: String,
}

/// What a permission row holds, with its names as text.
pub struct RolePermissionRowView {
    pub role_id: i64,
    pub site_id: i64,
    pub resource_type: Seq<char>,
    pub resource_category_id: Option<i64>,
    pub action: Seq<char>,
}

impl View for RolePermissionRow {
    type V = RolePermissionRowView;

    open spec fn view(&self) -> RolePermissionRowView {
        RolePermissionRowView {
            role_id: self.role_id,
            site_id: self.site_id,
            resource_type: self.resource_type@,
            resource_category_id: self.resource_category_id,
            action: self.action@,
        }
    }
}

impl Clone for RolePermissionRow {
    fn clone(&self) -> (r: Self)
        ensures
            r == *self,
    {
        RolePermissionRow {
            role_id: self.role_id,
            site_id: self.site_id,
            resource_type: self.resource_type.clone(),
            resource_category_id: self.resource_category_id,
            action: self.action.clone(),
        }
    }
}

/// A row granting a role to a user.
#[derive(Debug, Clone, Copy, PartialEq, Eq)]
pub struct UserRoleRow {
    pub user_id: i64,
    pub role_id: i64,
    pub site_id: i64,
    pub assigned_at: i128,
    pub assigned_by: i64,
    pub expires_at: Option<i128>,
    pub deleted_at: Option<i128>,
}

/// The writes of a role update.
#[derive(Debug)]
pub struct RoleUpdatePlan {
    /// The columns written to the role.
    pub changes: RoleChanges,
    /// Every permission row of this role is removed.
    pub remove_permissions_of: i64,
    /// The permission rows inserted afterwards, if any.
    pub insert_rows: Option<Vec<RolePermissionRow>>,
    /// The permissions recorded as the role's new ones.
    pub new_permissions: Vec<Permission>,
}

/// Marks the role `role_id` deleted, or (applied to grants) every grant of
/// that role that is not deleted yet; see `crate::store::revokes`.
#[derive(Debug, Clone, Copy, PartialEq, Eq)]
pub struct RoleDeletion {
    pub role_id: i64,
    pub deleted_at: i128,
}

/// Marks a user's hold on a role deleted.
#[derive(Debug, Clone, Copy, PartialEq, Eq)]
pub struct UserRoleRevocation {
    pub user_id: i64,
    pub role_id: i64,
    pub deleted_at: i128,
}

/// Copies a list of permissions.
pub fn clone_permissions(ps: &Vec<Permission>) -> (r: Vec<Permission>)
    ensures
        r@ == ps@,
{
    let mut r: Vec<Permission> = Vec::new();
    let mut i: usize = 0;
    while i < ps.len()
        invariant
            i <= ps.len(),
            r@ == ps@.take(i as int),
        decreases ps.len() - i,
    {
        r.push(ps[i].clone());
        assert(ps@.take(i as int).push(ps@[i as int]) =~= ps@.take(i + 1));
        i = i + 1;
    }
    assert(ps@.take(ps.len() as int) =~= ps@);
    r
}

/// How a role is looked up in a site: by id, or by name among the roles
/// that are not deleted.
#[derive(Debug, PartialEq, Eq)]
pub enum RoleLookup {
    ById { site_id: i64, role_id: i64 },
    ByName { site_id: i64, name: String },
}

/// `role` is the one that `lookup` asks for.
pub open spec fn role_matches(lookup: RoleLookup, role: Role) -> bool {
    match lookup {
        RoleLookup::ById { site_id, role_id } => role.site_id == site_id && role.role_id == role_id,
        RoleLookup::ByName { site_id, name } => role.site_id == site_id && role.name@ == name@
            && role.deleted_at is None,
    }
}

impl RoleLookup {
    /// Whether `role` is the one asked for.
    pub fn matches(&self, role: &Role) -> (r: bool)
        ensures
            r == role_matches(*self, *role),
    {
        match self {
            RoleLookup::ById { site_id, role_id } => role.site_id == *site_id && role.role_id
                == *role_id,
            RoleLookup::ByName { site_id, name } => role.site_id == *site_id && role.name == *name
                && role.deleted_at.is_none(),
        }
    }
}

/// Why a role operation failed.
#[derive(Debug, Clone, Copy, PartialEq, Eq)]
pub enum RoleError {
    /// No role answers the reference.
    NotFound,
}

/// The stored form of a permission's category: an id is kept, a slug is not.
pub open spec fn stored_category(c: Option<Reference>) -> Option<i64> {
    match c {
        Some(Reference::Id(id)) => Some(id),
        _ => None,
    }
}

/// The row that grants `p` to a role.
pub open spec fn permission_row_matches(row: RolePermissionRow, role: Role, p: Permission) -> bool {
    &&& row.role_id == role.role_id
    &&& row.site_id == role.site_id
    &&& row.resource_type@ == resource_name(p.resource)
    &&& row.resource_category_id == stored_category(p.resource_category)
    &&& row.action@ == action_name(p.action)
}

/// The permission a stored row grants, when its names are readable.
pub open spec fn row_permission(row: RolePermissionRow) -> Option<PermissionView> {
    match (spec_resource(row.resource_type@), spec_action(row.action@)) {
        (Some(r), Some(a)) => Some(
            PermissionView {
                resource: r,
                resource_category: match row.resource_category_id {
                    Some(id) => Some(ReferenceView::Id(id)),
                    None => None,
                },
                action: a,
            },
        ),
        _ => None,
    }
}

/// The views of a list of permissions.
pub open spec fn permission_views(s: Seq<Permission>) -> Seq<PermissionView> {
    s.map_values(|p: Permission| p@)
}

/// The permissions that stored rows grant, in order, leaving out unreadable rows.
pub open spec fn rows_permissions(rows: Seq<RolePermissionRow>) -> Seq<PermissionView>
    decreases rows.len(),
{
    if rows.len() == 0 {
        Seq::empty()
    } else {
        let p = rows_permissions(rows.drop_last());
        match row_permission(rows.last()) {
            Some(x) => p.push(x),
            None => p,
        }
    }
}

/// The role types every site has, which users hold by their relation to the
/// site and page rather than by assignment.
#[derive(Debug, Clone, Copy, PartialEq, Eq, Hash, Structural)]
pub enum SystemRole {
    Everyone,
    Anonymous,
    Guest,
    Registered,
    Member,
    PageAuthor,
}

/// The name of the virtual role that stands for a system role.
pub open spec fn system_role_name(r: SystemRole) -> Seq<char> {
    match r {
        SystemRole::Everyone => seq!['e', 'v', 'e', 'r', 'y', 'o', 'n', 'e'],
        SystemRole::Anonymous => seq!['a', 'n', 'o', 'n', 'y', 'm', 'o', 'u', 's'],
        SystemRole::Guest => seq!['g', 'u', 'e', 's', 't'],
        SystemRole::Registered => seq!['r', 'e', 'g', 'i', 's', 't', 'e', 'r', 'e', 'd'],
        SystemRole::Member => seq!['m', 'e', 'm', 'b', 'e', 'r'],
        SystemRole::PageAuthor => seq!['p', 'a', 'g', 'e', '-', 'a', 'u', 't', 'h', 'o', 'r'],
    }
}

impl SystemRole {
    /// The role's name.
    pub fn as_str(&self) -> (s: &'static str)
        ensures
            s@ == system_role_name(*self),
    {
        match self {
            SystemRole::Everyone => {
                proof {
                    reveal_strlit("everyone");
                }
                "everyone"
            },
            SystemRole::Anonymous => {
                proof {
                    reveal_strlit("anonymous");
                }
                "anonymous"
            },
            SystemRole::Guest => {
                proof {
                    reveal_strlit("guest");
                }
                "guest"
            },
            SystemRole::Registered => {
                proof {
                    reveal_strlit("registered");
                }
                "registered"
            },
            SystemRole::Member => {
                proof {
                    reveal_strlit("member");
                }
                "member"
            },
            SystemRole::PageAuthor => {
                proof {
                    reveal_strlit("page-author");
                }
                "page-author"
            },
        }
    }
}

/// The system roles a user holds: registered when logged in, member and page
/// author as they are, anonymous when not logged in, guest when not a member
/// (anonymous users included), and everyone always; in that order.
pub open spec fn applied_system_roles(logged_in: bool, member: bool, page_author: bool) -> Seq<
    SystemRole,
> {
    let s1: Seq<SystemRole> = if logged_in {
        seq![SystemRole::Registered]
    } else {
        Seq::empty()
    };
    let s2: Seq<SystemRole> = if member {
        s1.push(SystemRole::Member)
    } else {
        s1
    };
    let s3: Seq<SystemRole> = if page_author {
        s2.push(SystemRole::PageAuthor)
    } else {
        s2
    };
    let s4: Seq<SystemRole> = if !logged_in {
        s3.push(SystemRole::Anonymous).push(SystemRole::Guest)
    } else if !member {
        s3.push(SystemRole::Guest)
    } else {
        s3
    };
    s4.push(SystemRole::Everyone)
}

/// The last of `roles` with the given name (a map keyed by name keeps the last).
pub open spec fn last_named(roles: Seq<Role>, name: Seq<char>) -> Option<Role>
    decreases roles.len(),
{
    if roles.len() == 0 {
        None
    } else if roles.last().name@ == name {
        Some(roles.last())
    } else {
        last_named(roles.drop_last(), name)
    }
}

/// For each system role in turn, the virtual role of that name, leaving out
/// those the site lacks.
pub open spec fn select_virtual_roles(roles: Seq<Role>, applied: Seq<SystemRole>) -> Seq<Role>
    decreases applied.len(),
{
    if applied.len() == 0 {
        Seq::empty()
    } else {
        let p = select_virtual_roles(roles, applied.drop_last());
        match last_named(roles, system_role_name(applied.last())) {
            Some(r) => p.push(r),
            None => p,
        }
    }
}

/// The role service: the decisions of role creation, update, lookup and
/// granting.
#[derive(Debug)]
pub struct RoleService;

impl RoleService {
    /// The row that creating a role inserts; a missing description is empty,
    /// and the creation time is also the update time.
    pub fn new_role(input: CreateRoleInput, now: i128) -> (r: NewRole)
        ensures
            r.site_id == input.site_id,
            r.name == input.name,
            r.description@ == match input.description {
                Some(d) => d@,
                None => Seq::<char>::empty(),
            },
            r.is_virtual == input.is_virtual,
            r.is_system == input.is_system,
            r.level == input.level,
            r.created_at == now,
            r.updated_at == Some(now),
    {
        let description = match input.description {
            Some(d) => d,
            None => String::new(),
        };
        NewRole {
            site_id: input.site_id,
            name: input.name,
            description,
            is_virtual: input.is_virtual,
            is_system: input.is_system,
            level: input.level,
            created_at: now,
            updated_at: Some(now),
        }
    }

    /// The columns that an update of `role_id` writes: each given field, and
    /// the update time.
    pub fn role_changes(role_id: i64, input: &UpdateRoleInput, now: i128) -> (r: RoleChanges)
        ensures
            r.role_id == role_id,
            r.name == match input.name {
                Maybe::Given(n) => Some(n),
                Maybe::Unset => None,
            },
            r.description == match input.description {
                Maybe::Given(d) => Some(d),
                Maybe::Unset => None,
            },
            r.level == match input.level {
                Maybe::Given(l) => Some(l),
                Maybe::Unset => None,
            },
            r.updated_at == now,
    {
        let name = match &input.name {
            Maybe::Given(n) => Some(n.clone()),
            Maybe::Unset => None,
        };
        let description = match &input.description {
            Maybe::Given(d) => Some(d.clone()),
            Maybe::Unset => None,
        };
        let level = match &input.level {
            Maybe::Given(l) => Some(*l),
            Maybe::Unset => None,
        };
        RoleChanges { role_id, name, description, level, updated_at: now }
    }

    /// What updating a role does: the columns it writes; that it removes
    /// every permission row of the role; the rows it inserts, when new
    /// permissions are given (none are inserted otherwise, so the role is
    /// left with none); and the permissions it records as new.
    pub fn plan_update(role: &Role, input: &UpdateRoleInput, now: i128) -> (r: RoleUpdatePlan)
        ensures
            r.changes.role_id == role.role_id,
            r.changes.name == match input.name {
                Maybe::Given(n) => Some(n),
                Maybe::Unset => None,
            },
            r.changes.description == match input.description {
                Maybe::Given(d) => Some(d),
                Maybe::Unset => None,
            },
            r.changes.level == match input.level {
                Maybe::Given(l) => Some(l),
                Maybe::Unset => None,
            },
            r.changes.updated_at == now,
            r.remove_permissions_of == role.role_id,
            match input.permissions {
                Maybe::Given(ps) => {
                    &&& r.insert_rows matches Some(rows)
                    &&& rows@.len() == ps@.len()
                    &&& forall|i: int| 0 <= i < rows@.len() ==> permission_row_matches(#[trigger] rows@[i], *role, ps@[i])
                    &&& r.new_permissions@ == ps@
                },
                Maybe::Unset => r.insert_rows is None && r.new_permissions@.len() == 0,
            },
    {
        let changes = RoleService::role_changes(role.role_id, input, now);
        match &input.permissions {
            Maybe::Given(ps) => {
                let rows = RoleService::permission_rows(role, ps);
                let new_permissions = clone_permissions(ps);
                RoleUpdatePlan {
                    changes,
                    remove_permissions_of: role.role_id,
                    insert_rows: Some(rows),
                    new_permissions,
                }
            },
            Maybe::Unset => RoleUpdatePlan {
                changes,
                remove_permissions_of: role.role_id,
                insert_rows: None,
                new_permissions: Vec::new(),
            },
        }
    }

    /// Marks one user's hold on a role deleted at `now`.
    pub fn revocation(user_id: i64, role_id: i64, now: i128) -> (r: UserRoleRevocation)
        ensures
            r.user_id == user_id,
            r.role_id == role_id,
            r.deleted_at == now,
    {
        UserRoleRevocation { user_id, role_id, deleted_at: now }
    }

    /// Marks a role, or every active hold on it, deleted at `now`.
    pub fn deletion(role_id: i64, now: i128) -> (r: RoleDeletion)
        ensures
            r.role_id == role_id,
            r.deleted_at == now,
    {
        RoleDeletion { role_id, deleted_at: now }
    }

    /// How a reference to a role of a site is looked up.
    pub fn lookup(site_id: i64, reference: &Reference) -> (r: RoleLookup)
        ensures
            match *reference {
                Reference::Id(id) => r == RoleLookup::ById { site_id, role_id: id },
                Reference::Slug(name) => r == RoleLookup::ByName { site_id, name },
            },
    {
        match reference {
            Reference::Id(id) => RoleLookup::ById { site_id, role_id: *id },
            Reference::Slug(name) => RoleLookup::ByName { site_id, name: name.clone() },
        }
    }

    /// A looked-up role, or `NotFound` when there is none.
    pub fn require_found(found: Option<Role>) -> (r: Result<Role, RoleError>)
        ensures
            match found {
                Some(role) => r == Ok::<Role, RoleError>(role),
                None => r == Err::<Role, RoleError>(RoleError::NotFound),
            },
    {
        match found {
            Some(role) => Ok(role),
            None => Err(RoleError::NotFound),
        }
    }

    /// The row that grants a role; the role and site come from the stored role.
    pub fn grant_row(input: &GrantUserRoleInput, role: &Role, now: i128) -> (r: UserRoleRow)
        ensures
            r.user_id == input.user_id,
            r.role_id == role.role_id,
            r.site_id == role.site_id,
            r.assigned_at == now,
            r.assigned_by == input.assigning_user_id,
            r.expires_at == input.expires_at,
            r.deleted_at is None,
    {
        UserRoleRow {
            user_id: input.user_id,
            role_id: role.role_id,
            site_id: role.site_id,
            assigned_at: now,
            assigned_by: input.assigning_user_id,
            expires_at: input.expires_at,
            deleted_at: None,
        }
    }

    /// The row that grants one permission to a role.
    pub fn permission_row(role: &Role, permission: &Permission) -> (r: RolePermissionRow)
        ensures
            permission_row_matches(r, *role, *permission),
    {
        let category = match &permission.resource_category {
            Some(Reference::Id(id)) => Some(*id),
            _ => None,
        };
        RolePermissionRow {
            role_id: role.role_id,
            site_id: role.site_id,
            resource_type: permission.resource.to_string(),
            resource_category_id: category,
            action: permission.action.to_string(),
        }
    }

    /// The rows that grant a role its new permissions, one per permission, in order.
    pub fn permission_rows(role: &Role, permissions: &Vec<Permission>) -> (r: Vec<RolePermissionRow>)
        ensures
            r@.len() == permissions@.len(),
            forall|i: int|
                0 <= i < r@.len() ==> permission_row_matches(#[trigger] r@[i], *role, permissions@[i]),
    {
        let mut r: Vec<RolePermissionRow> = Vec::new();
        let mut i: usize = 0;
        while i < permissions.len()
            invariant
                i <= permissions.len(),
                r@.len() == i,
                forall|j: int|
                    0 <= j < i ==> permission_row_matches(#[trigger] r@[j], *role, permissions@[j]),
            decreases permissions.len() - i,
        {
            let row = RoleService::permission_row(role, &permissions[i]);
            r.push(row);
            i = i + 1;
        }
        r
    }

    /// The permissions that stored rows grant, leaving out rows whose
    /// resource or action cannot be read.
    pub fn permissions_from_rows(rows: &Vec<RolePermissionRow>) -> (r: Vec<Permission>)
        ensures
            permission_views(r@) == rows_permissions(rows@),
    {
        let mut r: Vec<Permission> = Vec::new();
        let mut i: usize = 0;
        while i < rows.len()
            invariant
                i <= rows.len(),
                permission_views(r@) == rows_permissions(rows@.take(i as int)),
            decreases rows.len() - i,
        {
            let row = &rows[i];
            let resource = Resource::parse(row.resource_type.as_str());
            let action = Action::parse(row.action.as_str());
            let ghost before = r@;
            assert(rows@.take(i + 1).drop_last() =~= rows@.take(i as int));
            assert(rows@.take(i + 1).last() == rows@[i as int]);
            match (resource, action) {
                (Some(resource), Some(action)) => {
                    let category = match row.resource_category_id {
                        Some(id) => Some(Reference::Id(id)),
                        None => None,
                    };
                    let p = Permission { resource, resource_category: category, action };
                    let ghost pv = p@;
                    r.push(p);
                    assert(permission_views(r@) =~= permission_views(before).push(pv));
                },
                _ => {},
            }
            i = i + 1;
        }
        assert(rows@.take(rows.len() as int) =~= rows@);
        r
    }

    /// The system roles a user holds, as `applied_system_roles` states.
    pub fn applied_system_roles(logged_in: bool, member: bool, page_author: bool) -> (r: Vec<
        SystemRole,
    >)
        ensures
            r@ == applied_system_roles(logged_in, member, page_author),
    {
        let mut r: Vec<SystemRole> = Vec::new();
        if logged_in {
            r.push(SystemRole::Registered);
        }
        if member {
            r.push(SystemRole::Member);
        }
        if page_author {
            r.push(SystemRole::PageAuthor);
        }
        if !logged_in {
            r.push(SystemRole::Anonymous);
            r.push(SystemRole::Guest);
        } else if !member {
            r.push(SystemRole::Guest);
        }
        r.push(SystemRole::Everyone);
        assert(r@ =~= applied_system_roles(logged_in, member, page_author));
        r
    }

    /// The last of `roles` named `name`.
    pub fn find_last_named(roles: &Vec<Role>, name: &String) -> (r: Option<Role>)
        ensures
            r == last_named(roles@, name@),
    {
        let mut found: Option<usize> = None;
        let mut i: usize = 0;
        while i < roles.len()
            invariant
                i <= roles.len(),
                match found {
                    Some(j) => j < i && last_named(roles@.take(i as int), name@) == Some(roles@[j as int]),
                    None => last_named(roles@.take(i as int), name@) is None,
                },
            decreases roles.len() - i,
        {
            assert(roles@.take(i + 1).drop_last() =~= roles@.take(i as int));
            if roles[i].name == *name {
                found = Some(i);
            }
            i = i + 1;
        }
        assert(roles@.take(roles.len() as int) =~= roles@);
        match found {
            Some(j) => Some(roles[j].clone()),
            None => None,
        }
    }

    /// For each applied system role in turn, the site's virtual role of that name.
    pub fn select_virtual_roles(roles: &Vec<Role>, applied: &Vec<SystemRole>) -> (r: Vec<Role>)
        ensures
            r@ == select_virtual_roles(roles@, applied@),
    {
        let mut r: Vec<Role> = Vec::new();
        let mut i: usize = 0;
        while i < applied.len()
            invariant
                i <= applied.len(),
                r@ == select_virtual_roles(roles@, applied@.take(i as int)),
            decreases applied.len() - i,
        {
            let ghost t = applied@.take(i + 1);
            assert(t.drop_last() =~= applied@.take(i as int));
            let name = applied[i].as_str().to_owned();
            match RoleService::find_last_named(roles, &name) {
                Some(role) => r.push(role),
                None => {},
            }
            i = i + 1;
        }
        assert(applied@.take(applied.len() as int) =~= applied@);
        r
    }
}

} // verus!

verus! {

/// What reading back a stored permission gives: the same resource and
/// action, and the category only when it was given by id.
pub open spec fn stored_permission(p: Permission) -> PermissionView {
    PermissionView {
        resource: p.resource,
        resource_category: match stored_category(p.resource_category) {
            Some(id) => Some(ReferenceView::Id(id)),
            None => None,
        },
        action: p.action,
    }
}

/// Reading back the rows written for a role's permissions gives those
/// permissions in order, each in its stored form.
pub proof fn lemma_permission_rows_roundtrip(rows: Seq<RolePermissionRow>, role: Role, perms: Seq<Permission>)
    requires
        rows.len() == perms.len(),
        forall|i: int| 0 <= i < rows.len() ==> permission_row_matches(#[trigger] rows[i], role, perms[i]),
    ensures
        rows_permissions(rows) == perms.map_values(|p: Permission| stored_permission(p)),
    decreases rows.len(),
{
    if rows.len() == 0 {
        assert(perms.map_values(|p: Permission| stored_permission(p)) =~= Seq::<PermissionView>::empty());
    } else {
        let n = rows.len() - 1;
        assert forall|i: int| 0 <= i < rows.drop_last().len() implies permission_row_matches(
            #[trigger] rows.drop_last()[i],
            role,
            perms.drop_last()[i],
        ) by {
            assert(permission_row_matches(rows[i], role, perms[i]));
        }
        lemma_permission_rows_roundtrip(rows.drop_last(), role, perms.drop_last());
        assert(permission_row_matches(rows[n], role, perms[n]));
        crate::permissions::lemma_resource_name_roundtrip(perms[n].resource);
        crate::permissions::lemma_action_name_roundtrip(perms[n].action);
        assert(row_permission(rows.last()) == Some(stored_permission(perms[n])));
        assert(perms.map_values(|p: Permission| stored_permission(p)) =~= perms.drop_last().map_values(
            |p: Permission| stored_permission(p),
        ).push(stored_permission(perms[n])));
    }
}

/// The system roles a user holds: everyone always; registered exactly when
/// logged in; anonymous exactly when not; guest exactly when not a logged-in
/// member; member and page author exactly as given; none twice.
pub proof fn lemma_applied_system_roles(logged_in: bool, member: bool, page_author: bool)
    ensures
        ({
            let a = applied_system_roles(logged_in, member, page_author);
            &&& a.contains(SystemRole::Everyone)
            &&& a.contains(SystemRole::Registered) == logged_in
            &&& a.contains(SystemRole::Anonymous) == !logged_in
            &&& a.contains(SystemRole::Guest) == !(logged_in && member)
            &&& a.contains(SystemRole::Member) == member
            &&& a.contains(SystemRole::PageAuthor) == page_author
            &&& a.no_duplicates()
            &&& a.last() == SystemRole::Everyone
        }),
{
    let a = applied_system_roles(logged_in, member, page_author);
    let s1: Seq<SystemRole> = if logged_in {
        seq![SystemRole::Registered]
    } else {
        Seq::empty()
    };
    let s2: Seq<SystemRole> = if member {
        s1.push(SystemRole::Member)
    } else {
        s1
    };
    let s3: Seq<SystemRole> = if page_author {
        s2.push(SystemRole::PageAuthor)
    } else {
        s2
    };
    let s4: Seq<SystemRole> = if !logged_in {
        s3.push(SystemRole::Anonymous).push(SystemRole::Guest)
    } else if !member {
        s3.push(SystemRole::Guest)
    } else {
        s3
    };
    assert(a == s4.push(SystemRole::Everyone));
    assert(a[a.len() - 1] == SystemRole::Everyone);
    assert forall|r: SystemRole| #[trigger] a.contains(r) <==> (r == SystemRole::Everyone || s4.contains(r)) by {
        if a.contains(r) {
            let i = choose|i: int| 0 <= i < a.len() && a[i] == r;
            if i < s4.len() {
                assert(s4[i] == r);
            }
        }
        if s4.contains(r) {
            let i = choose|i: int| 0 <= i < s4.len() && s4[i] == r;
            assert(a[i] == r);
        }
    }
    if logged_in {
        assert(s1[0] == SystemRole::Registered);
    }
    if member {
        assert(s2[s2.len() - 1] == SystemRole::Member);
    }
    if page_author {
        assert(s3[s3.len() - 1] == SystemRole::PageAuthor);
    }
    assert(s3.len() <= 3);
    assert forall|r: SystemRole| #[trigger] s4.contains(r) <==> (
        (r == SystemRole::Registered && logged_in) || (r == SystemRole::Member && member) || (r
            == SystemRole::PageAuthor && page_author) || (r == SystemRole::Anonymous && !logged_in)
            || (r == SystemRole::Guest && !(logged_in && member))) by {
        if s4.contains(r) {
            let i = choose|i: int| 0 <= i < s4.len() && s4[i] == r;
        }
        if r == SystemRole::Anonymous && !logged_in {
            assert(s4[s4.len() - 2] == r);
        }
        if r == SystemRole::Guest && !(logged_in && member) {
            assert(s4[s4.len() - 1] == r);
        }
        if r == SystemRole::Registered && logged_in {
            assert(s4[0] == r);
        }
        if r == SystemRole::Member && member {
            assert(s4[s2.len() - 1] == r);
        }
        if r == SystemRole::PageAuthor && page_author {
            assert(s4[s3.len() - 1] == r);
        }
    }
    assert forall|i: int, j: int| 0 <= i < a.len() && 0 <= j < a.len() && i != j implies a[i] != a[j] by {
    }
}

} // verus!

verus! {

/// The role `last_named` finds is one of the roles and has the name.
pub proof fn lemma_last_named(roles: Seq<Role>, name: Seq<char>)
    ensures
        last_named(roles, name) matches Some(r) ==> roles.contains(r) && r.name@ == name,
        last_named(roles, name) is None <==> forall|i: int| 0 <= i < roles.len() ==> #[trigger] roles[i].name@ != name,
    decreases roles.len(),
{
    if roles.len() > 0 {
        lemma_last_named(roles.drop_last(), name);
        if let Some(r) = last_named(roles.drop_last(), name) {
            let i = choose|i: int| 0 <= i < roles.drop_last().len() && roles.drop_last()[i] == r;
            assert(roles[i] == r);
        }
        if last_named(roles, name) is None {
            assert forall|i: int| 0 <= i < roles.len() implies #[trigger] roles[i].name@ != name by {
                if i < roles.len() - 1 {
                    assert(roles[i] == roles.drop_last()[i]);
                }
            }
        } else {
            if roles.last().name@ != name {
                let i = choose|i: int| 0 <= i < roles.drop_last().len() && #[trigger] roles.drop_last()[i].name@ == name;
                assert(roles[i] == roles.drop_last()[i]);
            }
        }
        assert(roles[roles.len() - 1] == roles.last());
    }
}

/// Each selected virtual role is one of the site's roles, named after one
/// of the applied system roles; there are no more of them than applied roles,
/// and a system role whose name some site role bears is always represented.
pub proof fn lemma_select_virtual_roles(roles: Seq<Role>, applied: Seq<SystemRole>)
    ensures
        select_virtual_roles(roles, applied).len() <= applied.len(),
        forall|i: int| 0 <= i < select_virtual_roles(roles, applied).len() ==> {
            let r = #[trigger] select_virtual_roles(roles, applied)[i];
            &&& roles.contains(r)
            &&& exists|k: int| 0 <= k < applied.len() && r.name@ == system_role_name(#[trigger] applied[k])
        },
        forall|k: int, j: int|
            0 <= k < applied.len() && 0 <= j < roles.len() && #[trigger] roles[j].name@ == system_role_name(
                #[trigger] applied[k],
            ) ==> select_virtual_roles(roles, applied).contains(last_named(roles, system_role_name(applied[k]))->0),
    decreases applied.len(),
{
    if applied.len() > 0 {
        let prev = applied.drop_last();
        lemma_select_virtual_roles(roles, prev);
        let name = system_role_name(applied.last());
        lemma_last_named(roles, name);
        let p = select_virtual_roles(roles, prev);
        let s = select_virtual_roles(roles, applied);
        assert forall|i: int| 0 <= i < s.len() implies {
            let r = #[trigger] s[i];
            &&& roles.contains(r)
            &&& exists|k: int| 0 <= k < applied.len() && r.name@ == system_role_name(#[trigger] applied[k])
        } by {
            if i < p.len() {
                assert(s[i] == p[i]);
                let r = p[i];
                let k = choose|k: int| 0 <= k < prev.len() && r.name@ == system_role_name(#[trigger] prev[k]);
                assert(applied[k] == prev[k]);
            } else {
                assert(applied[applied.len() - 1] == applied.last());
            }
        }
        assert forall|k: int, j: int|
            0 <= k < applied.len() && 0 <= j < roles.len() && #[trigger] roles[j].name@ == system_role_name(
                #[trigger] applied[k],
            ) implies s.contains(last_named(roles, system_role_name(applied[k]))->0) by {
            if k < prev.len() {
                assert(applied[k] == prev[k]);
                assert(roles[j].name@ == system_role_name(prev[k]));
                let x = last_named(roles, system_role_name(applied[k]))->0;
                let i = choose|i: int| 0 <= i < p.len() && p[i] == x;
                assert(s[i] == x);
            } else {
                assert(applied[k] == applied.last());
                assert(s[s.len() - 1] == last_named(roles, name)->0);
            }
        }
    }
}

} // verus!

verus! {

/// A lookup by name finds exactly the roles of its site with that name that
/// are not deleted, whatever else they are (virtual or system roles
/// included); a lookup by id finds exactly the role of its site with that
/// id, deleted or not.
pub proof fn lemma_role_lookup_exact(site_id: i64, reference: Reference, role: Role)
    ensures
        reference matches Reference::Slug(name) ==> (role_matches(
            RoleLookup::ByName { site_id, name },
            role,
        ) <==> (role.site_id == site_id && role.name@ == name@ && role.deleted_at is None)),
        reference matches Reference::Id(id) ==> (role_matches(RoleLookup::ById { site_id, role_id: id }, role)
            <==> (role.site_id == site_id && role.role_id == id)),
{
}

} // verus!
