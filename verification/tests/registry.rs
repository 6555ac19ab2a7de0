use graft_hook::config::{load_registry, registry_from_table, ConfigError};
use graft_hook::registry::{DuplicateName, ProjectConfig, ProjectRegistry};

fn project(name: &str, path: &str) -> ProjectConfig {
    ProjectConfig { name: name.to_string(), path: path.to_string() }
}

fn sample() -> ProjectRegistry {
    ProjectRegistry::from_entries(vec![
        project("blog", "/srv/blog"),
        project("shop", "/srv/shop"),
        project("wiki", "/srv/wiki"),
    ])
    .unwrap()
}

#[test]
fn lookup_returns_the_path_of_every_registered_project() {
    let registry = sample();
    for (name, path) in [("blog", "/srv/blog"), ("shop", "/srv/shop"), ("wiki", "/srv/wiki")] {
        let found = registry.lookup(name).unwrap();
        assert_eq!(found.name, name);
        assert_eq!(found.path, path);
        assert!(registry.contains(name));
    }
}

#[test]
fn lookup_finds_no_unregistered_name() {
    let registry = sample();
    assert_eq!(registry.lookup("unknown"), None);
    assert_eq!(registry.lookup(""), None);
    assert_eq!(registry.lookup("Blog"), None);
    assert_eq!(registry.lookup("blog "), None);
    assert!(!registry.contains("unknown"));
}

#[test]
fn empty_registry_finds_nothing() {
    let registry = ProjectRegistry::from_entries(Vec::new()).unwrap();
    assert_eq!(registry.len(), 0);
    assert!(registry.is_empty());
    assert_eq!(registry.lookup("blog"), None);
    assert_eq!(registry.get(0), None);
}

#[test]
fn registry_keeps_the_order_of_its_entries() {
    let registry = sample();
    assert_eq!(registry.len(), 3);
    assert!(!registry.is_empty());
    assert_eq!(registry.get(0), Some(&project("blog", "/srv/blog")));
    assert_eq!(registry.get(2), Some(&project("wiki", "/srv/wiki")));
    assert_eq!(registry.get(3), None);
}

#[test]
fn duplicate_name_is_rejected() {
    let built = ProjectRegistry::from_entries(vec![
        project("blog", "/srv/blog"),
        project("shop", "/srv/shop"),
        project("blog", "/srv/other"),
    ]);
    assert_eq!(built.unwrap_err(), DuplicateName { name: "blog".to_string(), index: 2 });
}

#[test]
fn first_repeat_is_reported() {
    let built = ProjectRegistry::from_entries(vec![
        project("a", "/1"),
        project("b", "/2"),
        project("b", "/3"),
        project("a", "/4"),
    ]);
    assert_eq!(built.unwrap_err(), DuplicateName { name: "b".to_string(), index: 2 });
}

#[test]
fn same_path_under_two_names_is_accepted() {
    let registry =
        ProjectRegistry::from_entries(vec![project("a", "/srv"), project("b", "/srv")]).unwrap();
    assert_eq!(registry.lookup("a").unwrap().path, "/srv");
    assert_eq!(registry.lookup("b").unwrap().path, "/srv");
}

#[test]
fn table_of_pairs_becomes_a_registry() {
    let registry = registry_from_table(vec![
        ("blog".to_string(), "/srv/blog".to_string()),
        ("shop".to_string(), "/srv/shop".to_string()),
    ])
    .unwrap();
    assert_eq!(registry.len(), 2);
    assert_eq!(registry.lookup("shop").unwrap().path, "/srv/shop");
    let repeated = registry_from_table(vec![
        ("blog".to_string(), "/a".to_string()),
        ("blog".to_string(), "/b".to_string()),
    ]);
    assert_eq!(repeated.unwrap_err(), DuplicateName { name: "blog".to_string(), index: 1 });
}

#[test]
fn json_object_of_strings_loads() {
    let registry = load_registry(r#"{"shop": "/srv/shop", "blog": "/srv/blog"}"#).unwrap();
    assert_eq!(registry.len(), 2);
    assert_eq!(registry.lookup("blog").unwrap().path, "/srv/blog");
    assert_eq!(registry.lookup("shop").unwrap().path, "/srv/shop");
    assert_eq!(registry.lookup("wiki"), None);
    // The entries come in ascending order of the names.
    assert_eq!(registry.get(0).unwrap().name, "blog");
    assert_eq!(registry.get(1).unwrap().name, "shop");
}

#[test]
fn json_escapes_are_decoded() {
    let registry = load_registry(r#"{"café": "/srv/a\\b", "x": "/tmp/\"q\""}"#).unwrap();
    assert_eq!(registry.lookup("café").unwrap().path, "/srv/a\\b");
    assert_eq!(registry.lookup("x").unwrap().path, "/tmp/\"q\"");
}

#[test]
fn empty_json_object_loads_as_empty_registry() {
    let registry = load_registry("{}").unwrap();
    assert!(registry.is_empty());
}

#[test]
fn repeated_json_member_keeps_its_last_value() {
    let registry = load_registry(r#"{"blog": "/first", "blog": "/second"}"#).unwrap();
    assert_eq!(registry.len(), 1);
    assert_eq!(registry.lookup("blog").unwrap().path, "/second");
}

#[test]
fn malformed_configuration_is_rejected() {
    for text in [
        "",
        "not json",
        "[]",
        r#"["blog", "/srv/blog"]"#,
        r#""blog""#,
        "null",
        r#"{"blog": 1}"#,
        r#"{"blog": null}"#,
        r#"{"blog": {"path": "/srv/blog"}}"#,
        r#"{"blog": "/srv/blog""#,
        r#"{"blog": "/srv/blog"} trailing"#,
        r#"{"blog": "/srv/blog",}"#,
    ] {
        assert_eq!(load_registry(text).unwrap_err(), ConfigError::Malformed, "{}", text);
    }
}
