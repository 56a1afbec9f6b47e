use deepwell::middleware::{header_value_text, RequestContextHeaders, RequestContextLayer};
use deepwell::permissions::{Action, Permission, Resource};
use deepwell::resolvers::{resolve_category_reference, CategoryLookup, PageCategoryResolver};
use deepwell::role::{
    CreateRoleInput, GetUserRolesInput, GrantUserRoleInput, Role, RoleError, RoleLookup,
    RolePermissionRow, RoleService, SystemRole, UpdateRoleInput,
};
use deepwell::types::{Maybe, Reference};
use deepwell::user_roles::{RolesAction, RolesEvent, RolesPhase};

fn role(role_id: i64, name: &str, is_virtual: bool) -> Role {
    Role {
        role_id,
        site_id: 1,
        name: name.to_string(),
        description: String::new(),
        is_virtual,
        is_system: is_virtual,
        level: 0,
        created_at: 0,
        updated_at: None,
        deleted_at: None,
    }
}

fn virtual_roles() -> Vec<Role> {
    vec![
        role(100, "everyone", true),
        role(101, "anonymous", true),
        role(102, "guest", true),
        role(103, "registered", true),
        role(104, "member", true),
        role(105, "page-author", true),
    ]
}

/// Runs a role lookup against fixed answers, returning the role ids and the questions asked.
fn run(
    input: GetUserRolesInput,
    include_direct: bool,
    direct: Vec<Role>,
    virtuals: Vec<Role>,
    member: bool,
    authors: Vec<i64>,
) -> (Vec<i64>, Vec<&'static str>) {
    let (mut lookup, mut action) = if include_direct {
        RoleService::get_all_roles_for_user_and_site(input)
    } else {
        RoleService::get_virtual_roles_for_user(input)
    };
    let mut asked = Vec::new();
    loop {
        let event = match action {
            RolesAction::Done(roles) => {
                assert_eq!(lookup.phase(), RolesPhase::Finished);
                return (roles.iter().map(|r| r.role_id).collect(), asked);
            }
            RolesAction::LoadDirectRoles { .. } => {
                asked.push("direct");
                RolesEvent::DirectRoles(direct.clone())
            }
            RolesAction::LoadVirtualRoles { .. } => {
                asked.push("virtual");
                RolesEvent::VirtualRoles(virtuals.clone())
            }
            RolesAction::LoadMembership { .. } => {
                asked.push("membership");
                RolesEvent::Membership(member)
            }
            RolesAction::LoadPageAuthors { .. } => {
                asked.push("authors");
                RolesEvent::PageAuthors(authors.clone())
            }
        };
        assert!(lookup.accepts(&event));
        action = lookup.advance(event);
    }
}

fn input(user_id: Option<i64>, page: Option<Reference>) -> GetUserRolesInput {
    GetUserRolesInput { site_id: 1, user_id, page_reference: page }
}

#[test]
fn anonymous_user_roles() {
    let (ids, asked) = run(input(None, Some(Reference::Id(3))), true, vec![role(7, "staff", false)], virtual_roles(), true, vec![]);
    assert_eq!(ids, vec![101, 102, 100]);
    assert_eq!(asked, vec!["virtual"]);
}

#[test]
fn registered_guest_roles() {
    let (ids, asked) = run(input(Some(5), None), true, vec![role(7, "staff", false)], virtual_roles(), false, vec![]);
    assert_eq!(ids, vec![7, 103, 102, 100]);
    assert_eq!(asked, vec!["direct", "virtual", "membership"]);
}

#[test]
fn member_roles_without_page() {
    let (ids, asked) = run(input(Some(5), None), true, vec![], virtual_roles(), true, vec![5]);
    assert_eq!(ids, vec![103, 104, 100]);
    assert_eq!(asked, vec!["direct", "virtual", "membership"]);
}

#[test]
fn page_author_roles() {
    let (ids, asked) = run(input(Some(5), Some(Reference::Slug("scp-001".into()))), true, vec![], virtual_roles(), true, vec![9, 5]);
    assert_eq!(ids, vec![103, 104, 105, 100]);
    assert_eq!(asked, vec!["direct", "virtual", "membership", "authors"]);
    let (ids, _) = run(input(Some(5), Some(Reference::Id(1))), true, vec![], virtual_roles(), true, vec![9]);
    assert_eq!(ids, vec![103, 104, 100]);
}

#[test]
fn virtual_roles_only() {
    let (ids, asked) = run(input(Some(5), None), false, vec![role(7, "staff", false)], virtual_roles(), false, vec![]);
    assert_eq!(ids, vec![103, 102, 100]);
    assert_eq!(asked, vec!["virtual", "membership"]);
}

#[test]
fn missing_virtual_roles_are_left_out_and_last_name_wins() {
    let virtuals = vec![role(1, "everyone", true), role(2, "guest", true), role(3, "everyone", true)];
    let (ids, _) = run(input(None, None), true, vec![], virtuals, false, vec![]);
    assert_eq!(ids, vec![2, 3]);
}

#[test]
fn applied_system_roles_cases() {
    assert_eq!(RoleService::applied_system_roles(false, false, false), vec![SystemRole::Anonymous, SystemRole::Guest, SystemRole::Everyone]);
    assert_eq!(RoleService::applied_system_roles(true, false, false), vec![SystemRole::Registered, SystemRole::Guest, SystemRole::Everyone]);
    assert_eq!(RoleService::applied_system_roles(true, true, false), vec![SystemRole::Registered, SystemRole::Member, SystemRole::Everyone]);
    assert_eq!(RoleService::applied_system_roles(true, true, true), vec![SystemRole::Registered, SystemRole::Member, SystemRole::PageAuthor, SystemRole::Everyone]);
    assert_eq!(SystemRole::PageAuthor.as_str(), "page-author");
}

#[test]
fn new_role_row() {
    let input = CreateRoleInput { site_id: 3, name: "mods".into(), description: None, is_virtual: false, is_system: false, level: 4 };
    let row = RoleService::new_role(input, 77);
    assert_eq!(row.description, "");
    assert_eq!(row.created_at, 77);
    assert_eq!(row.updated_at, Some(77));
    assert_eq!(row.level, 4);
    let input = CreateRoleInput { site_id: 3, name: "mods".into(), description: Some("x".into()), is_virtual: true, is_system: true, level: 4 };
    assert_eq!(RoleService::new_role(input, 1).description, "x");
}

#[test]
fn lookup_and_not_found() {
    let mut r = role(5, "admins", false);
    assert_eq!(RoleService::lookup(1, &Reference::Id(5)), RoleLookup::ById { site_id: 1, role_id: 5 });
    let by_name = RoleService::lookup(1, &Reference::Slug("admins".into()));
    assert!(by_name.matches(&r));
    assert!(RoleService::lookup(1, &Reference::Id(5)).matches(&r));
    assert!(!RoleService::lookup(2, &Reference::Id(5)).matches(&r));
    r.deleted_at = Some(10);
    assert!(!by_name.matches(&r));
    // A deleted role is still found by id.
    assert!(RoleService::lookup(1, &Reference::Id(5)).matches(&r));
    assert_eq!(RoleService::require_found(None), Err(RoleError::NotFound));
    assert_eq!(RoleService::require_found(Some(r.clone())), Ok(r));
}

#[test]
fn update_plan_and_read_back() {
    let r = role(5, "admins", false);
    let perms = vec![
        Permission { resource: Resource::Page, resource_category: Some(Reference::Id(2)), action: Action::Edit },
        Permission { resource: Resource::Page, resource_category: Some(Reference::Slug("x".into())), action: Action::View },
        Permission { resource: Resource::Role, resource_category: None, action: Action::Assign },
    ];
    let input = UpdateRoleInput { name: Maybe::Given("owners".into()), description: Maybe::Unset, level: Maybe::Given(9), permissions: Maybe::Given(perms.clone()) };
    let plan = RoleService::plan_update(&r, &input, 50);
    assert_eq!(plan.changes.name, Some("owners".to_string()));
    assert_eq!(plan.changes.description, None);
    assert_eq!(plan.changes.level, Some(9));
    assert_eq!(plan.changes.updated_at, 50);
    assert_eq!(plan.remove_permissions_of, 5);
    assert_eq!(plan.new_permissions, perms);
    let rows = plan.insert_rows.unwrap();
    assert_eq!(rows.len(), 3);
    let back = RoleService::permissions_from_rows(&rows);
    assert_eq!(back[0], perms[0]);
    assert_eq!(back[1].resource_category, None);
    assert_eq!(back[2], perms[2]);

    let input = UpdateRoleInput { name: Maybe::Unset, description: Maybe::Unset, level: Maybe::Unset, permissions: Maybe::Unset };
    let plan = RoleService::plan_update(&r, &input, 50);
    assert!(plan.insert_rows.is_none());
    assert!(plan.new_permissions.is_empty());
    assert_eq!(plan.remove_permissions_of, 5);
}

#[test]
fn unreadable_rows_are_skipped() {
    let rows = vec![
        RolePermissionRow { role_id: 1, site_id: 1, resource_type: "forum".into(), resource_category_id: None, action: "view".into() },
        RolePermissionRow { role_id: 1, site_id: 1, resource_type: "PAGE".into(), resource_category_id: Some(4), action: "Edit".into() },
        RolePermissionRow { role_id: 1, site_id: 1, resource_type: "page".into(), resource_category_id: None, action: "fly".into() },
    ];
    let back = RoleService::permissions_from_rows(&rows);
    assert_eq!(back, vec![Permission { resource: Resource::Page, resource_category: Some(Reference::Id(4)), action: Action::Edit }]);
}

#[test]
fn grant_and_revoke_rows() {
    let mut r = role(5, "admins", false);
    r.site_id = 8;
    let input = GrantUserRoleInput { user_id: 2, role_id: 99, assigning_user_id: 3, expires_at: Some(1000) };
    let row = RoleService::grant_row(&input, &r, 12);
    assert_eq!((row.user_id, row.role_id, row.site_id, row.assigned_at, row.assigned_by), (2, 5, 8, 12, 3));
    assert_eq!(row.expires_at, Some(1000));
    assert_eq!(row.deleted_at, None);
    let rev = RoleService::revocation(2, 5, 13);
    assert_eq!((rev.user_id, rev.role_id, rev.deleted_at), (2, 5, 13));
    let del = RoleService::deletion(5, 14);
    assert_eq!((del.role_id, del.deleted_at), (5, 14));
}

#[test]
fn request_context_from_headers() {
    let ctx = RequestContextHeaders::from_header_values(Some("tok"), Some("42"), Some("scp-173"), Some("10.0.0.1"));
    assert_eq!(ctx.session_token.as_deref(), Some("tok"));
    assert_eq!(ctx.site_id, Some(42));
    assert_eq!(ctx.page_ref, Some(Reference::Slug("scp-173".into())));
    assert_eq!(ctx.ip_address.as_deref(), Some("10.0.0.1"));
    let ctx = RequestContextHeaders::from_header_values(None, Some("forty"), Some("17"), None);
    assert_eq!(ctx.session_token, None);
    assert_eq!(ctx.site_id, None);
    assert_eq!(ctx.page_ref, Some(Reference::Id(17)));
    assert_eq!(ctx.ip_address, None);
    let mut svc = RequestContextLayer.layer(3u8);
    assert_eq!(*svc.inner(), 3);
}

#[test]
fn category_references() {
    assert_eq!(PageCategoryResolver::resolve(1, Reference::Id(4)), CategoryLookup::Known(Some(4)));
    assert_eq!(
        PageCategoryResolver::resolve(1, Reference::Slug("tales".into())),
        CategoryLookup::BySlug { site_id: 1, slug: "tales".into() }
    );
    assert_eq!(resolve_category_reference(1, Resource::Role, Reference::Id(4)), CategoryLookup::Known(None));
    assert_eq!(resolve_category_reference(1, Resource::Page, Reference::Id(4)), CategoryLookup::Known(Some(4)));
}

#[test]
fn request_context_from_header_bytes() {
    let ctx = RequestContextHeaders::from_header_bytes(
        Some(b"tok\ten"),
        Some(b"-12"),
        Some(b"7"),
        Some(b"::1"),
    );
    assert_eq!(ctx.session_token.as_deref(), Some("tok\ten"));
    assert_eq!(ctx.site_id, Some(-12));
    assert_eq!(ctx.page_ref, Some(Reference::Id(7)));
    assert_eq!(ctx.ip_address.as_deref(), Some("::1"));
    // Bytes that are not visible ASCII make the header count as absent.
    let ctx = RequestContextHeaders::from_header_bytes(
        Some(b"tok\x01"),
        Some(&[0x34, 0x7f]),
        Some("pagé".as_bytes()),
        None,
    );
    assert_eq!(ctx.session_token, None);
    assert_eq!(ctx.site_id, None);
    assert_eq!(ctx.page_ref, None);
    assert_eq!(ctx.ip_address, None);
}

#[test]
fn header_value_text_cases() {
    assert_eq!(header_value_text(b"abc"), Some("abc".to_string()));
    assert_eq!(header_value_text(b""), Some(String::new()));
    assert_eq!(header_value_text(b"a\nb"), None);
    assert_eq!(header_value_text(&[0xff]), None);
}
