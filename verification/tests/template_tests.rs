use sous::Ingredient;
use sous::Metadata;
use sous::Recipe;
use sous::Renderer;
use sous::SousError;
use sous::TemplateRenderer;

fn gen_recipe() -> Recipe {
    Recipe {
        metadata: Metadata {
            name: "test recipe".to_string(),
            author: "test author".to_string(),
            servings: 1,
            url: None,
            prep_minutes: None,
            cook_minutes: 1,
        },
        steps: vec!["Step one".to_string()],
        ingredients: vec![Ingredient {
            name: "test ingredient".to_string(),
            amount: Some(1000),
            unit: None,
        }],
    }
}

#[test]
fn test_template_render_metadata() {
    let recipe = gen_recipe();
    let template =
        "{{ name }}\n{{ author }}\n{{ servings }} serving \n{{ cook_minutes }} minute";

    let renderer = TemplateRenderer::from_str(template).unwrap();
    let output = renderer.render(&recipe).unwrap();

    assert!(output.contains("test recipe"));
    assert!(output.contains("test author"));
    assert!(output.contains("1 serving"));
    assert!(output.contains("1 minute"));
}

#[test]
fn test_template_render_ingredients() {
    let recipe = gen_recipe();
    let template = "{% for ingredient in ingredients %}\n{{ ingredient.name }}\n{% endfor %}";

    let renderer = TemplateRenderer::from_str(template).unwrap();
    let output = renderer.render(&recipe).unwrap();

    assert!(output.contains("test ingredient"));
}

#[test]
fn test_template_render_steps() {
    let recipe = gen_recipe();
    let template = "{% for step in steps %}\n{{ step }}\n{% endfor %}";

    let renderer = TemplateRenderer::from_str(template).unwrap();
    let output = renderer.render(&recipe).unwrap();

    assert!(output.contains("Step one"));
}

#[test]
fn template_projects_ingredient_names_in_order() {
    let mut recipe = gen_recipe();
    recipe.ingredients = vec![
        Ingredient { name: "first".to_string(), amount: None, unit: None },
        Ingredient { name: "second".to_string(), amount: Some(500), unit: None },
        Ingredient { name: "third".to_string(), amount: None, unit: None },
    ];
    let template = "{% for ingredient in ingredients %}{{ ingredient.name }};{% endfor %}";
    let renderer = TemplateRenderer::from_str(template).unwrap();
    let output = renderer.render(&recipe).unwrap();
    assert_eq!(output, "first;second;third;");
}

#[test]
fn template_applies_no_rescaling() {
    // The template renderer is a raw projection: a whole amount is exposed
    // as the as-written integer, untouched by any serving override.
    let recipe = gen_recipe();
    let template = "{% for i in ingredients %}{{ i.amount }}{% endfor %}";
    let renderer = TemplateRenderer::from_str(template).unwrap();
    let output = renderer.render(&recipe).unwrap();
    assert_eq!(output, "1");
}

#[test]
fn malformed_template_is_rejected_at_construction() {
    match TemplateRenderer::from_str("{% for x in %}") {
        Ok(_) => panic!("an ill-formed template must be rejected"),
        Err(err) => assert!(matches!(err, SousError::TemplateError(_))),
    }
}
