use sous::Ingredient;
use sous::MarkdownRenderer;
use sous::Metadata;
use sous::Recipe;
use sous::Renderer;

fn gen_recipe() -> Recipe {
    Recipe {
        metadata: Metadata {
            name: "test recipe".to_string(),
            author: "test author".to_string(),
            servings: 1,
            url: None,
            prep_minutes: None,
            cook_minutes: 1,
        },
        steps: vec!["Step one".to_string()],
        ingredients: vec![Ingredient {
            name: "test ingredient".to_string(),
            amount: Some(1000),
            unit: None,
        }],
    }
}

#[test]
fn test_md_render() {
    let recipe = gen_recipe();

    let renderer = MarkdownRenderer::new();
    let md = renderer.render(&recipe).unwrap();

    assert!(md.contains("# test recipe\n**test author**\n**1 servings | 1 minutes cook time**"));
    assert!(md.contains("## Ingredients\n* 1 test ingredient"));
    assert!(md.contains("## Method\n1. Step one"));
}

#[test]
fn test_md_render_front_matter() {
    let recipe = gen_recipe();

    let renderer = MarkdownRenderer { front_matter: true, ..MarkdownRenderer::new() };
    let md = renderer.render(&recipe).unwrap();

    assert!(md.contains("---\ntitle: test recipe\nauthor: test author\n---"));
}

#[test]
fn test_md_render_servings() {
    let recipe = gen_recipe();

    let renderer = MarkdownRenderer { servings: Some(2), ..MarkdownRenderer::new() };
    let md = renderer.render(&recipe).unwrap();

    assert!(md.contains("2 servings"));
    assert!(md.contains("2 test ingredient"));
}

#[test]
fn md_render_whole_output() {
    let recipe = gen_recipe();
    let md = MarkdownRenderer::new().render_to_string(&recipe);
    assert_eq!(
        md,
        "# test recipe\n**test author**\n**1 servings | 1 minutes cook time**\n\n\
         ## Ingredients\n* 1 test ingredient\n\n## Method\n1. Step one\n\n"
    );
}

#[test]
fn md_render_url_and_prep() {
    let mut recipe = gen_recipe();
    recipe.metadata.url = Some("https://example.com".to_string());
    recipe.metadata.prep_minutes = Some(5);
    let md = MarkdownRenderer::new().render_to_string(&recipe);
    assert!(md.contains("**test author | https://example.com**\n"));
    assert!(md.contains("**1 servings | 5 minutes prep | 1 minutes cook time**\n\n"));
}

#[test]
fn step_numbering_is_contiguous_from_one() {
    let mut recipe = gen_recipe();
    recipe.steps = vec!["a".to_string(), "b".to_string(), "c".to_string()];
    let md = MarkdownRenderer::new().render_to_string(&recipe);
    assert!(md.contains("## Method\n1. a\n2. b\n3. c\n"));
}

#[test]
fn servings_round_trip_identity() {
    let mut recipe = gen_recipe();
    recipe.metadata.servings = 3;
    recipe.ingredients.push(Ingredient {
        name: "milk".to_string(),
        amount: Some(250),
        unit: Some("ml".to_string()),
    });

    let plain = MarkdownRenderer::new().render_to_string(&recipe);
    let overridden = MarkdownRenderer { servings: Some(3), ..MarkdownRenderer::new() }
        .render_to_string(&recipe);
    assert_eq!(plain, overridden);
}

#[test]
fn scaling_is_linear_in_the_override() {
    let mut recipe = gen_recipe();
    recipe.metadata.servings = 2;
    recipe.ingredients = vec![
        Ingredient { name: "flour".to_string(), amount: Some(500), unit: Some("cups".to_string()) },
        Ingredient { name: "salt".to_string(), amount: None, unit: Some("pinch".to_string()) },
    ];

    // Three times the as-written count: every amount is tripled.
    let renderer = MarkdownRenderer { servings: Some(6), ..MarkdownRenderer::new() };
    let md = renderer.render_to_string(&recipe);
    assert!(md.contains("* 1.5 cups flour\n"));
    // An ingredient without an amount is unaffected and keeps unit and name.
    assert!(md.contains("* pinch salt\n"));
}

#[test]
fn section_toggling_independence() {
    let recipe = gen_recipe();
    let full = MarkdownRenderer::new().render_to_string(&recipe);

    let no_meta = MarkdownRenderer { skip_meta: true, ..MarkdownRenderer::new() }
        .render_to_string(&recipe);
    assert!(!no_meta.contains("# test recipe"));
    assert!(!no_meta.contains("**"));
    assert!(no_meta.contains("## Ingredients\n* 1 test ingredient\n\n"));
    assert!(no_meta.contains("## Method\n1. Step one\n"));

    let no_ingredients = MarkdownRenderer { skip_ingredients: true, ..MarkdownRenderer::new() }
        .render_to_string(&recipe);
    assert!(!no_ingredients.contains("## Ingredients"));
    assert!(no_ingredients.contains("# test recipe\n"));
    assert!(no_ingredients.contains("## Method\n1. Step one\n"));

    let no_steps = MarkdownRenderer { skip_steps: true, ..MarkdownRenderer::new() }
        .render_to_string(&recipe);
    assert!(!no_steps.contains("## Method"));
    assert!(no_steps.contains("# test recipe\n"));
    assert!(no_steps.contains("## Ingredients\n* 1 test ingredient\n\n"));

    // Each enabled section renders identically to the all-enabled case.
    assert!(full.contains(no_meta.trim_end_matches('\n')));
    assert!(full.starts_with("# test recipe"));
}

#[test]
fn header_styles_are_mutually_exclusive() {
    let recipe = gen_recipe();

    let heading = MarkdownRenderer::new().render_to_string(&recipe);
    assert!(heading.starts_with("# "));
    assert!(!heading.contains("---\ntitle:"));

    let front = MarkdownRenderer { front_matter: true, ..MarkdownRenderer::new() }
        .render_to_string(&recipe);
    assert!(front.starts_with("---\n"));
    assert!(!front.contains("# test recipe"));
}

#[test]
fn zero_servings_renders_unscaled() {
    // A recipe built by hand may carry a zero serving count; the ratio is
    // then undefined and amounts are left as they are.
    let mut recipe = gen_recipe();
    recipe.metadata.servings = 0;
    let renderer = MarkdownRenderer { servings: Some(4), ..MarkdownRenderer::new() };
    let md = renderer.render_to_string(&recipe);
    assert!(md.contains("4 servings"));
    assert!(md.contains("* 1 test ingredient\n"));
}

#[test]
fn duplicate_ingredient_names_are_kept_in_order() {
    let mut recipe = gen_recipe();
    recipe.ingredients = vec![
        Ingredient { name: "egg".to_string(), amount: Some(1000), unit: None },
        Ingredient { name: "egg".to_string(), amount: Some(2000), unit: None },
    ];
    let md = MarkdownRenderer::new().render_to_string(&recipe);
    assert!(md.contains("## Ingredients\n* 1 egg\n* 2 egg\n\n"));
}

#[test]
fn empty_recipe_renders_headings_only() {
    let recipe = Recipe::new();
    let renderer = MarkdownRenderer { skip_meta: true, ..MarkdownRenderer::new() };
    let md = renderer.render_to_string(&recipe);
    assert_eq!(md, "## Ingredients\n\n## Method\n\n");
}
