use deepwell::permission::{
    CheckAction, CheckEvent, CheckPermissionContext, CheckPhase, PermissionCheck, PermissionInput,
    PermissionQuery, PermissionService,
};
use deepwell::permissions::{Action, Resource};
use deepwell::resolvers::CategoryLookup;
use deepwell::role::RolePermissionRow;
use deepwell::types::Reference;

/// A store for one check: slug resolution, held roles, and granted roles per category.
struct World {
    resolved: Option<i64>,
    held: Vec<i64>,
    granted: Vec<(Option<i64>, Vec<i64>)>,
}

impl World {
    fn granted_for(&self, category: Option<i64>) -> Vec<i64> {
        for (c, roles) in &self.granted {
            if *c == category {
                return roles.clone();
            }
        }
        Vec::new()
    }
}

/// Runs a check against a world, returning the answer and the questions asked.
fn run(ctx: CheckPermissionContext, world: &World) -> (bool, Vec<String>) {
    let (mut check, mut action) = PermissionService::check_user_can(ctx);
    let mut asked = Vec::new();
    loop {
        let event = match action {
            CheckAction::Done(answer) => {
                assert_eq!(check.phase(), CheckPhase::Finished);
                return (answer, asked);
            }
            CheckAction::ResolveCategory { site_id, slug } => {
                asked.push(format!("category {} {}", site_id, slug));
                CheckEvent::CategoryResolved(world.resolved)
            }
            CheckAction::LoadUserRoles(input) => {
                asked.push(format!("roles {} {:?}", input.site_id, input.user_id));
                CheckEvent::UserRoles(world.held.clone())
            }
            CheckAction::QueryRoles(q) => {
                asked.push(format!("query {:?}", q.resource_category_id));
                CheckEvent::RolesWithPermission(world.granted_for(q.resource_category_id))
            }
        };
        assert!(check.accepts(&event));
        action = check.advance(event);
    }
}

fn ctx(category: Option<Reference>, resource: Resource) -> CheckPermissionContext {
    CheckPermissionContext {
        user_id: Some(5),
        site_id: 1,
        page_reference: None,
        permission: PermissionInput { resource_type: resource, resource_category: category, action: Action::Edit },
    }
}

#[test]
fn no_roles_means_no_permission() {
    let world = World { resolved: None, held: vec![], granted: vec![(None, vec![1, 2])] };
    let (answer, asked) = run(ctx(None, Resource::Page), &world);
    assert!(!answer);
    assert_eq!(asked, vec!["roles 1 Some(5)".to_string()]);
}

#[test]
fn default_permission_decides_without_category() {
    let world = World { resolved: None, held: vec![3, 9], granted: vec![(None, vec![1, 9])] };
    let (answer, asked) = run(ctx(None, Resource::Page), &world);
    assert!(answer);
    assert_eq!(asked, vec!["roles 1 Some(5)".to_string(), "query None".to_string()]);
    let world = World { resolved: None, held: vec![3], granted: vec![(None, vec![1, 9])] };
    assert!(!run(ctx(None, Resource::Page), &world).0);
}

#[test]
fn category_permission_overrides_default() {
    // Roles hold the permission for category 7, but not the user's role: refused,
    // although the default permission would allow it.
    let world = World {
        resolved: None,
        held: vec![3],
        granted: vec![(Some(7), vec![4]), (None, vec![3])],
    };
    let (answer, asked) = run(ctx(Some(Reference::Id(7)), Resource::Page), &world);
    assert!(!answer);
    assert_eq!(asked, vec!["roles 1 Some(5)".to_string(), "query Some(7)".to_string()]);
}

#[test]
fn empty_category_permission_falls_back_to_default() {
    let world = World { resolved: None, held: vec![3], granted: vec![(None, vec![3])] };
    let (answer, asked) = run(ctx(Some(Reference::Id(7)), Resource::Page), &world);
    assert!(answer);
    assert_eq!(
        asked,
        vec!["roles 1 Some(5)".to_string(), "query Some(7)".to_string(), "query None".to_string()]
    );
}

#[test]
fn category_slug_is_resolved_first() {
    let world = World {
        resolved: Some(8),
        held: vec![2],
        granted: vec![(Some(8), vec![2]), (None, vec![])],
    };
    let (answer, asked) = run(ctx(Some(Reference::Slug("fragment".into())), Resource::Page), &world);
    assert!(answer);
    assert_eq!(asked[0], "category 1 fragment");
    // An unknown slug counts as no category.
    let world = World { resolved: None, held: vec![2], granted: vec![(None, vec![2])] };
    let (answer, asked) = run(ctx(Some(Reference::Slug("nope".into())), Resource::Page), &world);
    assert!(answer);
    assert_eq!(asked.last().unwrap(), "query None");
}

#[test]
fn roles_have_no_categories() {
    let world = World { resolved: Some(8), held: vec![2], granted: vec![(None, vec![2])] };
    let (answer, asked) = run(ctx(Some(Reference::Slug("x".into())), Resource::Role), &world);
    assert!(answer);
    assert_eq!(asked, vec!["roles 1 Some(5)".to_string(), "query None".to_string()]);
}

#[test]
fn more_roles_never_lose_permission() {
    let granted = vec![(Some(3), vec![10, 11]), (None, vec![12])];
    let small = World { resolved: None, held: vec![11], granted: granted.clone() };
    let big = World { resolved: None, held: vec![1, 11, 12], granted };
    let c = || ctx(Some(Reference::Id(3)), Resource::Page);
    assert!(run(c(), &small).0);
    assert!(run(c(), &big).0);
}

#[test]
fn wrong_event_is_not_accepted() {
    let (check, _) = PermissionService::check_user_can(ctx(None, Resource::Page));
    assert!(!check.accepts(&CheckEvent::CategoryResolved(Some(1))));
    assert!(!check.accepts(&CheckEvent::RolesWithPermission(vec![1])));
    assert!(check.accepts(&CheckEvent::UserRoles(vec![1])));
}

#[test]
fn category_resolution_for_permission_input() {
    let input = PermissionInput {
        resource_type: Resource::Page,
        resource_category: Some(Reference::Slug("tales".into())),
        action: Action::View,
    };
    assert_eq!(
        PermissionService::resolve_category(4, &input),
        CategoryLookup::BySlug { site_id: 4, slug: "tales".to_string() }
    );
    let input = PermissionInput { resource_type: Resource::Page, resource_category: Some(Reference::Id(2)), action: Action::View };
    assert_eq!(PermissionService::resolve_category(4, &input), CategoryLookup::Known(Some(2)));
    let input = PermissionInput { resource_type: Resource::Role, resource_category: Some(Reference::Id(2)), action: Action::View };
    assert_eq!(PermissionService::resolve_category(4, &input), CategoryLookup::Known(None));
    let input = PermissionInput { resource_type: Resource::Page, resource_category: None, action: Action::View };
    assert_eq!(PermissionService::resolve_category(4, &input), CategoryLookup::Known(None));
}

#[test]
fn permission_rows_and_queries() {
    let row = PermissionService::role_permission_row(1, 2, Resource::Page, Some(3), Action::Rename);
    assert_eq!(
        row,
        RolePermissionRow {
            role_id: 2,
            site_id: 1,
            resource_type: "page".to_string(),
            resource_category_id: Some(3),
            action: "rename".to_string(),
        }
    );
    let q = PermissionQuery { site_id: 1, resource: Resource::Page, resource_category_id: Some(3), action: Action::Rename };
    assert!(q.matches(&row));
    let q2 = PermissionQuery { resource_category_id: None, ..q };
    assert!(!q2.matches(&row));
    let q3 = PermissionQuery { action: Action::View, ..q };
    assert!(!q3.matches(&row));
    let other = PermissionService::role_permission_row(1, 9, Resource::Page, None, Action::View);
    assert_eq!(PermissionService::role_ids(&vec![row, other]), vec![2, 9]);
}
