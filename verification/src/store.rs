//! The stored rows, as the questions and writes of this library read and
//! change them: roles keyed by id, grants of roles to users, and the rows
//! granting permissions to roles.
use vstd::prelude::*;

use crate::permission::{
    check_category, expected_check, permission_row_view, query_matches_view, CheckPermissionContext,
    CheckWorld, PermissionQuery,
};
use crate::permissions::{Action, Resource};
use crate::role::{
    lemma_select_virtual_roles, role_matches, GetUserRolesInput, Role, RoleChanges, RoleDeletion,
    RoleLookup, RolePermissionRow, RoleUpdatePlan, UserRoleRevocation,
    RolePermissionRowView, UserRoleRow,
};
use crate::user_roles::{expected_user_roles, RolesWorld};

verus! {

/// The stored tables.
pub struct StoreModel {
    /// Roles, keyed by their id.
    pub roles: Map<i64, Role>,
    /// Grants of roles to users.
    pub grants: Seq<UserRoleRow>,
    /// Rows granting permissions to roles.
    pub permissions: Set<RolePermissionRowView>,
}

/// Every role is stored under its own id.
pub open spec fn well_keyed(db: StoreModel) -> bool {
    forall|k: i64| #[trigger] db.roles.contains_key(k) ==> db.roles[k].role_id == k
}

/// `r` is a stored role.
pub open spec fn stored_role(db: StoreModel, r: Role) -> bool {
    db.roles.contains_key(r.role_id) && db.roles[r.role_id] == r
}

/// The answer to `LoadDirectRoles { site_id, user_id }`: the stored roles of
/// the site that are not deleted and that some grant gives to the user.
pub open spec fn assigned_role_matches(db: StoreModel, site_id: i64, user_id: i64, r: Role) -> bool {
    &&& stored_role(db, r)
    &&& r.site_id == site_id
    &&& r.deleted_at is None
    &&& exists|i: int| 0 <= i < db.grants.len() && #[trigger] db.grants[i].user_id == user_id
        && db.grants[i].role_id == r.role_id
}

/// The answer to `LoadVirtualRoles { site_id }`: the stored virtual roles of the site.
pub open spec fn virtual_role_matches(db: StoreModel, site_id: i64, r: Role) -> bool {
    &&& stored_role(db, r)
    &&& r.site_id == site_id
    &&& r.is_virtual
}

/// The store answered a role lookup's role questions from `db`.
pub open spec fn roles_world_from(db: StoreModel, input: GetUserRolesInput, w: RolesWorld) -> bool {
    &&& (input.user_id matches Some(u) ==> forall|r: Role|
        w.direct.contains(r) <==> assigned_role_matches(db, input.site_id, u, r))
    &&& forall|r: Role| w.virtual_roles.contains(r) <==> virtual_role_matches(db, input.site_id, r)
}

/// The store's answer to a lookup of one role: a stored role that the
/// lookup asks for, or none when there is no such role.
pub open spec fn role_found(db: StoreModel, lookup: RoleLookup, found: Option<Role>) -> bool {
    match found {
        Some(r) => stored_role(db, r) && role_matches(lookup, r),
        None => forall|k: i64| #[trigger] db.roles.contains_key(k) ==> !role_matches(lookup, db.roles[k]),
    }
}

/// Whether a deletion revokes a grant: grants of the deleted role that are
/// not deleted yet.
pub open spec fn revokes(d: RoleDeletion, g: UserRoleRow) -> bool {
    g.role_id == d.role_id && g.deleted_at is None
}

/// The grants after revoking those of a deleted role.
pub open spec fn revoke_grants(grants: Seq<UserRoleRow>, d: RoleDeletion) -> Seq<UserRoleRow> {
    grants.map_values(
        |g: UserRoleRow|
            if revokes(d, g) {
                UserRoleRow { deleted_at: Some(d.deleted_at), ..g }
            } else {
                g
            },
    )
}

/// The roles after marking one deleted.
pub open spec fn mark_role_deleted(roles: Map<i64, Role>, d: RoleDeletion) -> Map<i64, Role> {
    if roles.contains_key(d.role_id) {
        roles.insert(d.role_id, Role { deleted_at: Some(d.deleted_at), ..roles[d.role_id] })
    } else {
        roles
    }
}

/// The store after deleting a role: its grants are revoked (`revoke`), then
/// the role is marked deleted (`mark`).
pub open spec fn delete_role(db: StoreModel, revoke: RoleDeletion, mark: RoleDeletion) -> StoreModel {
    StoreModel {
        roles: mark_role_deleted(db.roles, mark),
        grants: revoke_grants(db.grants, revoke),
        permissions: db.permissions,
    }
}

/// The permission rows after inserting one.
pub open spec fn insert_permission(perms: Set<RolePermissionRowView>, row: RolePermissionRowView) -> Set<
    RolePermissionRowView,
> {
    perms.insert(row)
}

/// The permission rows after deleting one.
pub open spec fn delete_permission(perms: Set<RolePermissionRowView>, row: RolePermissionRowView) -> Set<
    RolePermissionRowView,
> {
    perms.remove(row)
}

/// Once a role that is not virtual is deleted, no lookup of a user's roles
/// answered from the store holds it.
pub proof fn lemma_deleted_role_not_held(
    db: StoreModel,
    role_id: i64,
    revoke: RoleDeletion,
    mark: RoleDeletion,
    input: GetUserRolesInput,
    include_direct: bool,
    w: RolesWorld,
)
    requires
        well_keyed(db),
        db.roles.contains_key(role_id),
        !db.roles[role_id].is_virtual,
        revoke.role_id == role_id,
        mark.role_id == role_id,
        roles_world_from(delete_role(db, revoke, mark), input, w),
    ensures
        forall|i: int|
            0 <= i < expected_user_roles(input, include_direct, w).len()
                ==> #[trigger] expected_user_roles(input, include_direct, w)[i].role_id != role_id,
{
    let db2 = delete_role(db, revoke, mark);
    let logged_in = input.user_id is Some;
    let member = logged_in && w.member;
    let author = member && input.page_reference is Some && w.authors.contains(input.user_id->0);
    let applied = crate::role::applied_system_roles(logged_in, member, author);
    let direct = if include_direct && logged_in {
        w.direct
    } else {
        Seq::empty()
    };
    let selected = crate::role::select_virtual_roles(w.virtual_roles, applied);
    lemma_select_virtual_roles(w.virtual_roles, applied);
    let all = expected_user_roles(input, include_direct, w);
    assert(all == direct + selected);
    assert forall|i: int| 0 <= i < all.len() implies #[trigger] all[i].role_id != role_id by {
        if i < direct.len() {
            let r = direct[i];
            assert(w.direct.contains(r));
            assert(assigned_role_matches(db2, input.site_id, input.user_id->0, r));
        } else {
            let r = selected[i - direct.len()];
            assert(all[i] == r);
            assert(w.virtual_roles.contains(r));
            assert(virtual_role_matches(db2, input.site_id, r));
        }
    }
}

/// Once a role is deleted, looking it up by name finds nothing (when no
/// other live role of the site bears that name), and looking it up by id
/// finds it, marked deleted.
pub proof fn lemma_deleted_role_lookup(
    db: StoreModel,
    role_id: i64,
    site_id: i64,
    mark: RoleDeletion,
    by_name: RoleLookup,
    found_by_name: Option<Role>,
    found_by_id: Option<Role>,
)
    requires
        well_keyed(db),
        db.roles.contains_key(role_id),
        db.roles[role_id].site_id == site_id,
        mark.role_id == role_id,
        by_name matches RoleLookup::ByName { site_id: s, name } && s == site_id
            && name@ == db.roles[role_id].name@,
        forall|k: i64|
            #[trigger] db.roles.contains_key(k) && k != role_id && db.roles[k].site_id == site_id
                && db.roles[k].name@ == db.roles[role_id].name@ ==> db.roles[k].deleted_at is Some,
        role_found(StoreModel { roles: mark_role_deleted(db.roles, mark), ..db }, by_name, found_by_name),
        role_found(
            StoreModel { roles: mark_role_deleted(db.roles, mark), ..db },
            RoleLookup::ById { site_id, role_id },
            found_by_id,
        ),
    ensures
        found_by_name is None,
        found_by_id == Some(mark_role_deleted(db.roles, mark)[role_id]),
        found_by_id matches Some(r) && r.deleted_at == Some(mark.deleted_at),
{
    let roles2 = mark_role_deleted(db.roles, mark);
    let db2 = StoreModel { roles: roles2, ..db };
    if let Some(r) = found_by_name {
        assert(roles2.contains_key(r.role_id) && roles2[r.role_id] == r);
        if r.role_id != role_id {
            assert(db.roles.contains_key(r.role_id));
            assert(db.roles[r.role_id] == r);
        }
    }
    assert(roles2.contains_key(role_id));
    assert(roles2[role_id].role_id == role_id);
    assert(role_matches(RoleLookup::ById { site_id, role_id }, roles2[role_id]));
    assert(db2.roles == roles2);
    match found_by_id {
        Some(r) => {
            assert(stored_role(db2, r) && role_matches(RoleLookup::ById { site_id, role_id }, r));
            assert(r.role_id == role_id);
        },
        None => {
            assert(db2.roles.contains_key(role_id));
            assert(!role_matches(RoleLookup::ById { site_id, role_id }, db2.roles[role_id]));
        },
    }
    assert(roles2[role_id].deleted_at == Some(mark.deleted_at));
}

/// Adding a permission to a role and then removing it, with the category
/// resolved alike, leaves the permission rows as they were, when the role
/// did not hold that row before.
pub proof fn lemma_add_then_remove_permission(
    perms: Set<RolePermissionRowView>,
    site_id: i64,
    role_id: i64,
    resource: Resource,
    resource_category_id: Option<i64>,
    action: Action,
)
    requires
        !perms.contains(permission_row_view(site_id, role_id, resource, resource_category_id, action)),
    ensures
        ({
            let row = permission_row_view(site_id, role_id, resource, resource_category_id, action);
            delete_permission(insert_permission(perms, row), row) == perms
        }),
{
    let row = permission_row_view(site_id, role_id, resource, resource_category_id, action);
    assert(perms.insert(row).remove(row) =~= perms);
}

} // verus!

verus! {

/// The store answered a check's permission questions from `db`: for each
/// category (or `None` for the whole resource), the roles that hold the
/// permission are those of the stored rows that the check's query asks for.
pub open spec fn permission_world_from(db: StoreModel, ctx: CheckPermissionContext, w: CheckWorld) -> bool {
    forall|c: Option<i64>, role_id: i64|
        #![trigger (w.granted)(c).contains(role_id)]
        (w.granted)(c).contains(role_id) <==> exists|row: RolePermissionRowView|
            #![trigger db.permissions.contains(row)]
            db.permissions.contains(row) && row.role_id == role_id && query_matches_view(
                PermissionQuery {
                    site_id: ctx.site_id,
                    resource: ctx.permission.resource_type,
                    resource_category_id: c,
                    action: ctx.permission.action,
                },
                row,
            )
}

/// Once a permission is added to a role (for the category a check uses, or
/// for the whole resource when the check uses none), a user who holds that
/// role passes the check when the store answers it.
pub proof fn lemma_added_permission_grants(
    db: StoreModel,
    ctx: CheckPermissionContext,
    w: CheckWorld,
    role_id: i64,
)
    requires
        w.held.contains(role_id),
        permission_world_from(
            StoreModel {
                permissions: insert_permission(
                    db.permissions,
                    permission_row_view(
                        ctx.site_id,
                        role_id,
                        ctx.permission.resource_type,
                        check_category(ctx.permission, w.resolved),
                        ctx.permission.action,
                    ),
                ),
                ..db
            },
            ctx,
            w,
        ),
    ensures
        expected_check(ctx, w),
{
    let c = check_category(ctx.permission, w.resolved);
    let row = permission_row_view(ctx.site_id, role_id, ctx.permission.resource_type, c, ctx.permission.action);
    let db2 = StoreModel { permissions: insert_permission(db.permissions, row), ..db };
    assert(db2.permissions.contains(row));
    assert((w.granted)(c).contains(role_id));
    let g = (w.granted)(c);
    let i = choose|i: int| 0 <= i < g.len() && g[i] == role_id;
    assert(w.held.len() > 0);
    match c {
        Some(cid) => {
            assert(g.len() > 0);
            assert(w.held.contains(g[i]));
        },
        None => {
            assert(w.held.contains(g[i]));
        },
    }
}

} // verus!

verus! {

/// The roles after writing a role update: each given column is replaced,
/// and the update time is set.
pub open spec fn update_role(roles: Map<i64, Role>, changes: RoleChanges) -> Map<i64, Role> {
    if roles.contains_key(changes.role_id) {
        let r = roles[changes.role_id];
        roles.insert(
            changes.role_id,
            Role {
                name: match changes.name {
                    Some(n) => n,
                    None => r.name,
                },
                description: match changes.description {
                    Some(d) => d,
                    None => r.description,
                },
                level: match changes.level {
                    Some(l) => l,
                    None => r.level,
                },
                updated_at: Some(changes.updated_at),
                ..r
            },
        )
    } else {
        roles
    }
}

/// The permission rows after replacing a role's: every row of the role is
/// removed, then the given rows are inserted.
pub open spec fn replace_role_permissions(
    perms: Set<RolePermissionRowView>,
    role_id: i64,
    rows: Seq<RolePermissionRow>,
) -> Set<RolePermissionRowView> {
    perms.filter(|v: RolePermissionRowView| v.role_id != role_id).union(
        rows.map_values(|r: RolePermissionRow| r@).to_set(),
    )
}

/// The store after a role update carried out as `plan` says.
pub open spec fn apply_role_update(db: StoreModel, plan: RoleUpdatePlan) -> StoreModel {
    StoreModel {
        roles: update_role(db.roles, plan.changes),
        grants: db.grants,
        permissions: replace_role_permissions(
            db.permissions,
            plan.remove_permissions_of,
            match plan.insert_rows {
                Some(rows) => rows@,
                None => Seq::empty(),
            },
        ),
    }
}

/// The store after granting a role: the grant is added.
pub open spec fn grant_role(db: StoreModel, row: UserRoleRow) -> StoreModel {
    StoreModel { grants: db.grants.push(row), ..db }
}

/// The grants after revoking a user's hold on a role: every grant of that
/// role to that user is marked deleted.
pub open spec fn revoke_user_role(grants: Seq<UserRoleRow>, r: UserRoleRevocation) -> Seq<UserRoleRow> {
    grants.map_values(
        |g: UserRoleRow|
            if g.user_id == r.user_id && g.role_id == r.role_id {
                UserRoleRow { deleted_at: Some(r.deleted_at), ..g }
            } else {
                g
            },
    )
}

/// After an update that gives new permissions, the role's stored permission
/// rows are exactly the rows written for them; other roles' rows are kept.
pub proof fn lemma_update_replaces_permissions(db: StoreModel, plan: RoleUpdatePlan, rows: Seq<RolePermissionRow>)
    requires
        plan.insert_rows matches Some(v) && v@ == rows,
        forall|i: int| 0 <= i < rows.len() ==> #[trigger] rows[i].role_id == plan.remove_permissions_of,
    ensures
        forall|v: RolePermissionRowView|
            #[trigger] apply_role_update(db, plan).permissions.contains(v) && v.role_id == plan.remove_permissions_of
                <==> exists|i: int| 0 <= i < rows.len() && v == #[trigger] rows[i]@,
        forall|v: RolePermissionRowView|
            v.role_id != plan.remove_permissions_of ==> (#[trigger] apply_role_update(db, plan).permissions.contains(v)
                <==> db.permissions.contains(v)),
{
    let views = rows.map_values(|r: RolePermissionRow| r@);
    assert forall|v: RolePermissionRowView| views.to_set().contains(v) <==> exists|i: int|
        0 <= i < rows.len() && v == #[trigger] rows[i]@ by {
        if views.to_set().contains(v) {
            assert(views.contains(v));
            let i = choose|i: int| 0 <= i < views.len() && views[i] == v;
            assert(v == rows[i]@);
        }
        if exists|i: int| 0 <= i < rows.len() && v == #[trigger] rows[i]@ {
            let i = choose|i: int| 0 <= i < rows.len() && v == #[trigger] rows[i]@;
            assert(views[i] == v);
            assert(views.contains(v));
        }
    }
    assert forall|v: RolePermissionRowView| views.to_set().contains(v) implies v.role_id
        == plan.remove_permissions_of by {
        let i = choose|i: int| 0 <= i < rows.len() && v == #[trigger] rows[i]@;
    }
}

/// Once a live role of a site is granted to a user, a lookup of that user's
/// roles in the site, answered by the store, holds it.
pub proof fn lemma_granted_role_held(
    db: StoreModel,
    row: UserRoleRow,
    role: Role,
    input: GetUserRolesInput,
    w: RolesWorld,
)
    requires
        stored_role(db, role),
        role.site_id == input.site_id,
        role.deleted_at is None,
        input.user_id == Some(row.user_id),
        row.role_id == role.role_id,
        roles_world_from(grant_role(db, row), input, w),
    ensures
        expected_user_roles(input, true, w).contains(role),
{
    let db2 = grant_role(db, row);
    let n = db.grants.len() as int;
    assert(db2.grants[n] == row);
    assert(assigned_role_matches(db2, input.site_id, row.user_id, role));
    assert(w.direct.contains(role));
    let i = choose|i: int| 0 <= i < w.direct.len() && w.direct[i] == role;
    let all = expected_user_roles(input, true, w);
    assert(all[i] == role);
}

/// Revoking a user's hold on a role marks each of that user's grants of the
/// role deleted at the given time, and changes no other grant.
pub proof fn lemma_revoke_user_role(grants: Seq<UserRoleRow>, r: UserRoleRevocation)
    ensures
        revoke_user_role(grants, r).len() == grants.len(),
        forall|i: int|
            0 <= i < grants.len() ==> {
                let g = #[trigger] revoke_user_role(grants, r)[i];
                if grants[i].user_id == r.user_id && grants[i].role_id == r.role_id {
                    g == UserRoleRow { deleted_at: Some(r.deleted_at), ..grants[i] }
                } else {
                    g == grants[i]
                }
            },
{
}

} // verus!

verus! {

/// When a site holds a role with a given name that is not deleted, a lookup
/// by that name finds a role, and the role it finds has that site and name
/// and is not deleted.
pub proof fn lemma_live_role_found_by_name(
    db: StoreModel,
    site_id: i64,
    name: String,
    role_id: i64,
    found: Option<Role>,
)
    requires
        db.roles.contains_key(role_id),
        db.roles[role_id].site_id == site_id,
        db.roles[role_id].name@ == name@,
        db.roles[role_id].deleted_at is None,
        role_found(db, RoleLookup::ByName { site_id, name }, found),
    ensures
        found matches Some(r) && r.site_id == site_id && r.name@ == name@ && r.deleted_at is None
            && stored_role(db, r),
{
    crate::role::lemma_role_lookup_exact(site_id, crate::types::Reference::Slug(name), db.roles[role_id]);
    if found is None {
        assert(!role_matches(RoleLookup::ByName { site_id, name }, db.roles[role_id]));
    }
    if let Some(r) = found {
        crate::role::lemma_role_lookup_exact(site_id, crate::types::Reference::Slug(name), r);
    }
}

} // verus!
