use deepwell::permission::{CheckAction, CheckEvent, CheckPermissionContext, PermissionInput, PermissionService};
use deepwell::permissions::{Action, Permission, Resource};
use deepwell::role::{GetUserRolesInput, GrantUserRoleInput, Role, RoleLookup, RoleService, UpdateRoleInput, UserRoleRow};
use deepwell::types::{Maybe, Reference};
use deepwell::user_roles::{RolesAction, RolesEvent};
use std::collections::HashSet;

fn role(role_id: i64, name: &str, is_virtual: bool) -> Role {
    Role {
        role_id,
        site_id: 1,
        name: name.to_string(),
        description: String::new(),
        is_virtual,
        is_system: false,
        level: 0,
        created_at: 0,
        updated_at: None,
        deleted_at: None,
    }
}

fn grant(user_id: i64, role_id: i64) -> UserRoleRow {
    UserRoleRow { user_id, role_id, site_id: 1, assigned_at: 0, assigned_by: 0, expires_at: None, deleted_at: None }
}

/// Applies a role deletion: revokes the live grants of the role, then marks it deleted.
fn delete(roles: &mut Vec<Role>, grants: &mut Vec<UserRoleRow>, role_id: i64) {
    let d = RoleService::deletion(role_id, 50);
    for g in grants.iter_mut() {
        if g.role_id == d.role_id && g.deleted_at.is_none() {
            g.deleted_at = Some(d.deleted_at);
        }
    }
    for r in roles.iter_mut() {
        if r.role_id == d.role_id {
            r.deleted_at = Some(d.deleted_at);
        }
    }
}

fn lookup_ids(roles: &[Role], grants: &[UserRoleRow], user: i64) -> Vec<i64> {
    let input = GetUserRolesInput { site_id: 1, user_id: Some(user), page_reference: None };
    let (mut lookup, mut action) = RoleService::get_all_roles_for_user_and_site(input);
    loop {
        let event = match action {
            RolesAction::Done(found) => return found.iter().map(|r| r.role_id).collect(),
            RolesAction::LoadDirectRoles { site_id, user_id } => RolesEvent::DirectRoles(
                roles
                    .iter()
                    .filter(|r| {
                        r.site_id == site_id
                            && r.deleted_at.is_none()
                            && grants.iter().any(|g| g.user_id == user_id && g.role_id == r.role_id)
                    })
                    .cloned()
                    .collect(),
            ),
            RolesAction::LoadVirtualRoles { site_id } => RolesEvent::VirtualRoles(
                roles.iter().filter(|r| r.site_id == site_id && r.is_virtual).cloned().collect(),
            ),
            RolesAction::LoadMembership { .. } => RolesEvent::Membership(true),
            RolesAction::LoadPageAuthors { .. } => RolesEvent::PageAuthors(vec![]),
        };
        assert!(lookup.accepts(&event));
        action = lookup.advance(event);
    }
}

#[test]
fn deleted_role_is_no_longer_held() {
    let mut roles = vec![role(1, "staff", false), role(2, "mods", false), role(100, "everyone", true)];
    let mut grants = vec![grant(5, 1), grant(5, 2)];
    assert_eq!(lookup_ids(&roles, &grants, 5), vec![1, 2, 100]);
    delete(&mut roles, &mut grants, 2);
    assert_eq!(lookup_ids(&roles, &grants, 5), vec![1, 100]);
}

#[test]
fn deleted_role_lookup_by_name_and_id() {
    let mut roles = vec![role(1, "staff", false), role(2, "mods", false)];
    let mut grants = vec![];
    delete(&mut roles, &mut grants, 2);
    let by_name = RoleService::lookup(1, &Reference::Slug("mods".into()));
    assert!(matches!(by_name, RoleLookup::ByName { .. }));
    assert!(roles.iter().all(|r| !by_name.matches(r)));
    let by_id = RoleService::lookup(1, &Reference::Id(2));
    let found: Vec<&Role> = roles.iter().filter(|r| by_id.matches(r)).collect();
    assert_eq!(found.len(), 1);
    assert_eq!(found[0].deleted_at, Some(50));
}

#[test]
fn add_then_remove_permission_restores_rows() {
    let mut rows = HashSet::new();
    rows.insert(format!("{:?}", PermissionService::role_permission_row(1, 3, Resource::Role, None, Action::View)));
    let before = rows.clone();
    let added = PermissionService::role_permission_row(1, 3, Resource::Page, Some(9), Action::Edit);
    rows.insert(format!("{:?}", added));
    assert_eq!(rows.len(), 2);
    let removed = PermissionService::role_permission_row(1, 3, Resource::Page, Some(9), Action::Edit);
    rows.remove(&format!("{:?}", removed));
    assert_eq!(rows, before);
}

#[test]
fn granted_role_is_held() {
    let roles = vec![role(1, "staff", false), role(2, "mods", false)];
    let mut grants = vec![grant(5, 1)];
    assert_eq!(lookup_ids(&roles, &grants, 5), vec![1]);
    let input = GrantUserRoleInput { user_id: 5, role_id: 2, assigning_user_id: 9, expires_at: None };
    grants.push(RoleService::grant_row(&input, &roles[1], 30));
    assert_eq!(lookup_ids(&roles, &grants, 5), vec![1, 2]);
}

#[test]
fn revoke_marks_grants_deleted() {
    let mut grants = vec![grant(5, 1), grant(5, 2), grant(6, 2)];
    let rev = RoleService::revocation(5, 2, 40);
    for g in grants.iter_mut() {
        if g.user_id == rev.user_id && g.role_id == rev.role_id {
            g.deleted_at = Some(rev.deleted_at);
        }
    }
    assert_eq!(grants.iter().map(|g| g.deleted_at).collect::<Vec<_>>(), vec![None, Some(40), None]);
}

#[test]
fn update_replaces_role_permission_rows() {
    let r = role(4, "mods", false);
    let keep = PermissionService::role_permission_row(1, 7, Resource::Page, None, Action::View);
    let old = PermissionService::role_permission_row(1, 4, Resource::Page, None, Action::Delete);
    let mut rows = vec![keep.clone(), old];
    let perms = vec![Permission { resource: Resource::Role, resource_category: None, action: Action::Assign }];
    let input = UpdateRoleInput { name: Maybe::Unset, description: Maybe::Unset, level: Maybe::Unset, permissions: Maybe::Given(perms) };
    let plan = RoleService::plan_update(&r, &input, 3);
    rows.retain(|row| row.role_id != plan.remove_permissions_of);
    rows.extend(plan.insert_rows.unwrap());
    assert_eq!(rows.len(), 2);
    assert_eq!(rows[0], keep);
    assert_eq!((rows[1].role_id, rows[1].resource_type.as_str(), rows[1].action.as_str()), (4, "role", "assign"));
}

#[test]
fn added_permission_passes_check() {
    let mut rows = vec![];
    rows.push(PermissionService::role_permission_row(1, 3, Resource::Page, None, Action::Edit));
    let ctx = CheckPermissionContext {
        user_id: Some(5),
        site_id: 1,
        page_reference: None,
        permission: PermissionInput { resource_type: Resource::Page, resource_category: None, action: Action::Edit },
    };
    let (mut check, mut action) = PermissionService::check_user_can(ctx);
    let answer = loop {
        let event = match action {
            CheckAction::Done(b) => break b,
            CheckAction::ResolveCategory { .. } => CheckEvent::CategoryResolved(None),
            CheckAction::LoadUserRoles(_) => CheckEvent::UserRoles(vec![3]),
            CheckAction::QueryRoles(q) => {
                let matching: Vec<_> = rows.iter().filter(|r| q.matches(r)).cloned().collect();
                CheckEvent::RolesWithPermission(PermissionService::role_ids(&matching))
            }
        };
        assert!(check.accepts(&event));
        action = check.advance(event);
    };
    assert!(answer);
}
