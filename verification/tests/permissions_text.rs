use deepwell::permissions::{Action, Permission, Resource};
use deepwell::types::Reference;

fn std_reference(s: &str) -> Reference {
    match s.parse::<i64>() {
        Ok(id) => Reference::Id(id),
        Err(_) => Reference::Slug(s.to_string()),
    }
}

#[test]
fn reference_reading_agrees_with_std_parse() {
    let cases = [
        "0",
        "-0",
        "+0",
        "+5",
        "42",
        "007",
        "-17",
        "9223372036854775807",
        "9223372036854775808",
        "-9223372036854775808",
        "-9223372036854775809",
        "99999999999999999999999999",
        "",
        "+",
        "-",
        "--1",
        "+-1",
        "12a",
        " 1",
        "1 ",
        "١٢",
        "scp-173",
        "fragment:thing",
    ];
    for case in cases {
        assert_eq!(Reference::from_text(case), std_reference(case), "case {:?}", case);
    }
}

#[test]
fn two_part_permission() {
    let p = Permission::from_str("page:view").unwrap();
    assert_eq!(p.resource, Resource::Page);
    assert_eq!(p.resource_category, None);
    assert_eq!(p.action, Action::View);
}

#[test]
fn three_part_permission_with_id() {
    let p = Permission::from_str("page:12:edit").unwrap();
    assert_eq!(p.resource, Resource::Page);
    assert_eq!(p.resource_category, Some(Reference::Id(12)));
    assert_eq!(p.action, Action::Edit);
}

#[test]
fn three_part_permission_with_slug() {
    let p = Permission::from_str("page:fragment:delete").unwrap();
    assert_eq!(p.resource_category, Some(Reference::Slug("fragment".to_string())));
    assert_eq!(p.action, Action::Delete);
    let p = Permission::from_str("page::rename").unwrap();
    assert_eq!(p.resource_category, Some(Reference::Slug(String::new())));
    assert_eq!(p.action, Action::Rename);
}

#[test]
fn permission_names_ignore_ascii_case() {
    let p = Permission::from_str("ROLE:Assign").unwrap();
    assert_eq!(p.resource, Resource::Role);
    assert_eq!(p.action, Action::Assign);
    let p = Permission::from_str("PaGe:-5:ReMoVe").unwrap();
    assert_eq!(p.resource, Resource::Page);
    assert_eq!(p.resource_category, Some(Reference::Id(-5)));
    assert_eq!(p.action, Action::Remove);
}

#[test]
fn permission_format_errors() {
    assert_eq!(Permission::from_str("page"), Err("invalid permission format"));
    assert_eq!(Permission::from_str(""), Err("invalid permission format"));
    assert_eq!(Permission::from_str("page:a:b:view"), Err("invalid permission format"));
}

#[test]
fn permission_resource_error_comes_first() {
    assert_eq!(Permission::from_str("pages:view"), Err("invalid resource type"));
    assert_eq!(Permission::from_str("x:y"), Err("invalid resource type"));
    assert_eq!(Permission::from_str("x:1:y"), Err("invalid resource type"));
}

#[test]
fn permission_action_error() {
    assert_eq!(Permission::from_str("page:look"), Err("invalid action type"));
    assert_eq!(Permission::from_str("role:7:viewing"), Err("invalid action type"));
    assert_eq!(Permission::from_str("page:view "), Err("invalid action type"));
}

#[test]
fn permission_from_str_trait() {
    let p: Permission = "role:create".parse().unwrap();
    assert_eq!(p.resource, Resource::Role);
    assert_eq!(p.action, Action::Create);
    let e: Result<Permission, &'static str> = "role".parse();
    assert_eq!(e, Err("invalid permission format"));
}

#[test]
fn names_read_back() {
    for r in [Resource::Page, Resource::Role] {
        assert_eq!(Resource::parse(r.as_str()), Some(r));
        assert_eq!(Resource::parse(&r.as_str().to_uppercase()), Some(r));
        assert_eq!(r.to_string(), r.as_str());
    }
    let actions = [
        Action::View,
        Action::Edit,
        Action::Create,
        Action::Delete,
        Action::Rename,
        Action::Assign,
        Action::Remove,
    ];
    for a in actions {
        assert_eq!(Action::parse(a.as_str()), Some(a));
        assert_eq!(Action::parse(&a.as_str().to_uppercase()), Some(a));
    }
    assert_eq!(Resource::Page.as_str(), "page");
    assert_eq!(Action::Assign.as_str(), "assign");
    assert_eq!(Resource::parse("pagé"), None);
    assert_eq!(Action::parse("vieW"), Some(Action::View));
    assert_eq!(Action::parse("view2"), None);
}

#[test]
fn written_permission_reads_back() {
    for r in [Resource::Page, Resource::Role] {
        for a in [Action::View, Action::Remove] {
            let text = format!("{}:{}", r.as_str(), a.as_str());
            let p = Permission::from_str(&text).unwrap();
            assert_eq!(p, Permission { resource: r, resource_category: None, action: a });
            let text = format!("{}:44:{}", r.as_str(), a.as_str());
            let p = Permission::from_str(&text).unwrap();
            assert_eq!(p.resource_category, Some(Reference::Id(44)));
        }
    }
}

#[test]
fn numeric_category_reads_back_as_id() {
    for n in [0i64, 7, -7, 10, 1234567, i64::MAX, i64::MIN] {
        for r in [Resource::Page, Resource::Role] {
            let text = format!("{}:{}:{}", r.as_str(), n, Action::Edit.as_str());
            assert_eq!(
                Permission::from_str(&text),
                Ok(Permission { resource: r, resource_category: Some(Reference::Id(n)), action: Action::Edit })
            );
        }
        assert_eq!(Reference::from_text(&n.to_string()), Reference::Id(n));
    }
}
