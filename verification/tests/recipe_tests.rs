use sous::assemble_ingredient;
use sous::assemble_ingredients;
use sous::assemble_metadata;
use sous::assemble_steps;
use sous::Ingredient;
use sous::RawField;
use sous::Recipe;
use sous::SousError;

#[test]
fn test_from_yaml() {
    let yaml = "
name: test recipe
author: test author
servings: 1
cook_minutes: 1
steps:
  - step 1
ingredients:
  - name: test ingredient
    amount: 1
    unit: test unit
        ";

    let recipe = Recipe::from_yaml(yaml).unwrap();
    assert_eq!(recipe.metadata.name, "test recipe");
    assert_eq!(recipe.metadata.author, "test author");
    assert_eq!(recipe.metadata.servings, 1);
    assert_eq!(recipe.metadata.cook_minutes, 1);
    assert_eq!(recipe.steps, vec!["step 1"]);
    assert_eq!(
        recipe.ingredients,
        vec![Ingredient {
            name: "test ingredient".to_string(),
            amount: Some(1000),
            unit: Some("test unit".to_string())
        }]
    );
}

#[test]
#[should_panic]
fn from_yaml_missing_name() {
    let yaml = "
author: test
servings: 1
cook_minutes: 1
steps:
  - step 1
ingredients:
  - name: test ingredient
  - amount: 1
  - unit: test unit
        ";

    Recipe::from_yaml(yaml).unwrap();
}

#[test]
#[should_panic]
fn from_yaml_bad_value() {
    let yaml = "
author: test
servings: one
cook_minutes: 1
steps:
  - step 1
ingredients:
  - name: test ingredient
  - amount: 1
  - unit: test unit
        ";

    Recipe::from_yaml(yaml).unwrap();
}

#[test]
fn from_yaml_missing_name_is_yaml_error() {
    let yaml = "
author: test author
servings: 1
cook_minutes: 1
steps: []
ingredients: []
        ";
    let err = Recipe::from_yaml(yaml).unwrap_err();
    assert!(matches!(err, SousError::YamlError(_)));
    assert_eq!(err.message(), "missing or invalid field: name");
}

#[test]
fn from_yaml_non_integer_servings_is_yaml_error() {
    let yaml = "
name: test recipe
author: test author
servings: one
cook_minutes: 1
steps: []
ingredients: []
        ";
    let err = Recipe::from_yaml(yaml).unwrap_err();
    assert!(matches!(err, SousError::YamlError(_)));
}

#[test]
fn from_yaml_zero_servings_rejected() {
    let yaml = "
name: test recipe
author: test author
servings: 0
cook_minutes: 1
steps: []
ingredients: []
        ";
    let err = Recipe::from_yaml(yaml).unwrap_err();
    assert!(matches!(err, SousError::YamlError(_)));
}

#[test]
fn from_yaml_malformed_document_is_yaml_error() {
    let err = Recipe::from_yaml(": not yaml: [").unwrap_err();
    assert!(matches!(err, SousError::YamlError(_)));
}

#[test]
fn from_yaml_fractional_amount() {
    let yaml = "
name: test recipe
author: test author
servings: 2
cook_minutes: 5
steps:
  - step 1
ingredients:
  - name: flour
    amount: 1.5
    unit: cups
        ";
    let recipe = Recipe::from_yaml(yaml).unwrap();
    assert_eq!(recipe.ingredients[0].amount, Some(1500));
}

#[test]
fn from_yaml_optional_fields_and_unknown_fields() {
    let yaml = "
name: test recipe
author: test author
servings: 4
url: https://example.com/r
prep_minutes: 10
cook_minutes: 20
an_unknown_field: ignored
steps:
  - a
  - b
ingredients:
  - name: salt
        ";
    let recipe = Recipe::from_yaml(yaml).unwrap();
    assert_eq!(recipe.metadata.url, Some("https://example.com/r".to_string()));
    assert_eq!(recipe.metadata.prep_minutes, Some(10));
    assert_eq!(recipe.steps.len(), 2);
    assert_eq!(recipe.ingredients[0].amount, None);
    assert_eq!(recipe.ingredients[0].unit, None);
}

#[test]
fn ingredient_to_string_shows_amount_unit_name() {
    let ing = Ingredient {
        name: "flour".to_string(),
        amount: Some(1500),
        unit: Some("cups".to_string()),
    };
    assert_eq!(ing.to_string(), "1.5 cups flour");

    let bare = Ingredient { name: "salt".to_string(), amount: None, unit: None };
    assert_eq!(bare.to_string(), "salt");
}

#[test]
fn error_message_text() {
    let e = SousError::TemplateError("boom".to_string());
    assert_eq!(e.message(), "boom");
    assert_eq!(SousError::Unknown.message(), "unknown internal error");
}

#[test]
fn serving_count_rule() {
    assert_eq!(sous::check_servings(Some(1)).unwrap(), 1);
    assert_eq!(sous::check_servings(Some(4294967295)).unwrap(), u32::MAX);
    assert!(sous::check_servings(Some(0)).is_err());
    assert!(sous::check_servings(Some(4294967296)).is_err());
    assert!(sous::check_servings(None).is_err());
}

#[test]
fn metadata_assembly_rules() {

    let m = assemble_metadata(
        RawField::Given("soup".to_string()),
        RawField::Given("cook".to_string()),
        RawField::Given(4),
        RawField::Missing,
        RawField::Given(10),
        RawField::Given(20),
    )
    .unwrap();
    assert_eq!(m.name, "soup");
    assert_eq!(m.author, "cook");
    assert_eq!(m.servings, 4);
    assert_eq!(m.url, None);
    assert_eq!(m.prep_minutes, Some(10));
    assert_eq!(m.cook_minutes, 20);

    // A missing required field is rejected.
    assert!(assemble_metadata(
        RawField::Missing,
        RawField::Given("cook".to_string()),
        RawField::Given(4),
        RawField::Missing,
        RawField::Missing,
        RawField::Given(20),
    )
    .is_err());
    // An ill-shaped optional field is rejected, not defaulted.
    assert!(assemble_metadata(
        RawField::Given("soup".to_string()),
        RawField::Given("cook".to_string()),
        RawField::Given(4),
        RawField::Invalid,
        RawField::Missing,
        RawField::Given(20),
    )
    .is_err());
}

#[test]
fn steps_assembly_preserves_order() {

    let ok = assemble_steps(&vec![
        Some("a".to_string()),
        Some("b".to_string()),
        Some("a".to_string()),
    ])
    .unwrap();
    assert_eq!(ok, vec!["a", "b", "a"]);
    assert_eq!(assemble_steps(&vec![]).unwrap(), Vec::<String>::new());
    assert!(assemble_steps(&vec![Some("a".to_string()), None]).is_err());
}

#[test]
fn ingredient_assembly_rules() {

    let ing = assemble_ingredient(
        &RawField::Given("flour".to_string()),
        &RawField::Missing,
        &RawField::Given("cups".to_string()),
    )
    .unwrap();
    assert_eq!(ing.name, "flour");
    assert_eq!(ing.amount, None);
    assert_eq!(ing.unit, Some("cups".to_string()));

    assert!(assemble_ingredient(&RawField::Missing, &RawField::Missing, &RawField::Missing)
        .is_err());
    assert!(assemble_ingredient(
        &RawField::Given("flour".to_string()),
        &RawField::Invalid,
        &RawField::Missing,
    )
    .is_err());

    let list = assemble_ingredients(&vec![
        (RawField::Given("egg".to_string()), RawField::Given(1000), RawField::Missing),
        (RawField::Given("egg".to_string()), RawField::Given(2000), RawField::Missing),
    ])
    .unwrap();
    assert_eq!(list.len(), 2);
    assert_eq!(list[0].amount, Some(1000));
    assert_eq!(list[1].amount, Some(2000));
}

#[test]
fn tagged_numeric_amount_is_accepted() {
    let yaml = "
name: test recipe
author: test author
servings: 1
cook_minutes: 1
steps: []
ingredients:
  - name: flour
    amount: !!float 1.5
        ";
    let recipe = sous::Recipe::from_yaml(yaml).unwrap();
    assert_eq!(recipe.ingredients[0].amount, Some(1500));
}
