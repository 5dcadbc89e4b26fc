use sous::is_yaml_name;
use sous::Cookbook;

#[test]
fn listing_keeps_only_yaml_names_in_order() {
    let entries = vec![
        "soup.yml".to_string(),
        "notes.txt".to_string(),
        "bread.yml".to_string(),
        ".yml".to_string(),
        "cake.tar.yml".to_string(),
        "stew.YML".to_string(),
    ];
    let book = Cookbook::from_listing("recipes".to_string(), entries);
    assert_eq!(
        book.recipes(),
        &vec!["soup.yml".to_string(), "bread.yml".to_string(), "cake.tar.yml".to_string()]
    );
    assert_eq!(book.path(), "recipes");
}

#[test]
fn yaml_name_requires_a_stem_and_the_extension() {
    assert!(is_yaml_name("a.yml"));
    assert!(is_yaml_name("dinner.party.yml"));
    assert!(!is_yaml_name(".yml"));
    assert!(!is_yaml_name("yml"));
    assert!(!is_yaml_name("a.yaml"));
    assert!(!is_yaml_name("a.yml.bak"));
    assert!(!is_yaml_name(""));
}
