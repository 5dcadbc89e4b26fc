//! The template-driven renderer and its trusted bindings.
//!
//! A recipe is projected onto a generic structured value — the flat mapping
//! of [`spec_projection`] — and a user-supplied template is expanded against
//! it. The projection applies no serving rescaling and no section toggling:
//! a template sees the raw, as-written recipe. A whole amount is exposed as
//! an integer, a fractional one as its decimal text, since the projection
//! carries no floating point; an absent optional field is null.
//!
//! The structured values handed to the engine are modelled by [`JsonView`]:
//! every constructor wrapper states the view of what it builds, so
//! [`recipe_context`] is proved to bind exactly the projection. The
//! expansion itself is the engine's; its output is only named, by the
//! relation [`tera_expands_to`].

use vstd::prelude::*;

use crate::error::SousError;
use crate::ingredient::Ingredient;
use crate::numtext::push_amount;
use crate::numtext::spec_amount;
use crate::recipe::Recipe;
use crate::render::Renderer;

verus! {

/// tera's template collection; opaque to the verifier.
#[verifier::external_type_specification]
#[verifier::external_body]
pub struct ExTera(tera::Tera);

/// tera's rendering context; opaque to the verifier.
#[verifier::external_type_specification]
#[verifier::external_body]
pub struct ExTeraContext(tera::Context);

/// serde_json's generic value tree; opaque to the verifier.
#[verifier::external_type_specification]
#[verifier::external_body]
pub struct ExJsonValue(serde_json::Value);

/// serde_json's object type; opaque to the verifier.
#[verifier::external_type_specification]
#[verifier::external_body]
#[verifier::reject_recursive_types(K)]
#[verifier::reject_recursive_types(V)]
pub struct ExJsonMap<K, V>(serde_json::Map<K, V>);

/// The shape of a structured value handed to the template engine: nothing
/// but nulls, unsigned integers, text, lists and string-keyed records ever
/// stands in a projection.
pub enum JsonView {
    /// The null value, standing for an absent optional field.
    Null,
    /// An unsigned integer.
    Uint(u64),
    /// A text value.
    Text(Seq<char>),
    /// A list of values, order significant.
    List(Seq<JsonView>),
    /// A record of values by key.
    Record(Map<Seq<char>, JsonView>),
}

/// What a structured value holds.
pub uninterp spec fn json_view(v: serde_json::Value) -> JsonView;

/// What an object holds, by key.
pub uninterp spec fn object_view(m: serde_json::Map<String, serde_json::Value>) -> Map<
    Seq<char>,
    JsonView,
>;

/// What a rendering context binds, by key.
pub uninterp spec fn context_view(c: tera::Context) -> Map<Seq<char>, JsonView>;

/// A value tree or context that binds nothing yet.
pub open spec fn empty_bindings() -> Map<Seq<char>, JsonView> {
    Map::empty()
}

/// Whether the template engine accepts the template text under the given
/// name when it is registered into an otherwise empty engine. On an empty
/// engine acceptance is a function of the name and the text alone, which is
/// why this name takes nothing else.
pub uninterp spec fn tera_compiles(name: Seq<char>, content: Seq<char>) -> bool;

/// The templates an engine holds, source text by name.
pub uninterp spec fn tera_templates(t: tera::Tera) -> Map<Seq<char>, Seq<char>>;

/// That `out` is a possible expansion of the named template of `templates`
/// against a context binding `ctx`. A relation, not a function: the engine
/// iterates record keys in a hash map's order, so two expansions of one
/// template against one context may differ, and only what holds of every
/// outcome can be stated.
pub uninterp spec fn tera_expands_to(
    templates: Map<Seq<char>, Seq<char>>,
    name: Seq<char>,
    ctx: Map<Seq<char>, JsonView>,
    out: Seq<char>,
) -> bool;

/// Relies on tera::Tera::default and tera::Tera::add_raw_template: an
/// engine holding exactly the one given template. Registration compiles and
/// validates the text; it succeeds or fails as a function of the name and
/// the text, since nothing else is registered that the text could refer to.
#[verifier::external_body]
fn tera_for_template(name: &str, content: &str) -> (r: Result<tera::Tera, String>)
    ensures
        r is Ok <==> tera_compiles(name@, content@),
        r matches Ok(t) ==> tera_templates(t) == Map::empty().insert(name@, content@),
{
    let mut env = tera::Tera::default();
    match env.add_raw_template(name, content) {
        Ok(()) => Ok(env),
        Err(e) => Err(e.to_string()),
    }
}

/// Relies on tera::Tera::render: expands the registered template of the
/// given name against the context, or reports in text why the expansion
/// fails. Success is not promised for any input: the engine's record
/// iteration order can decide it, so only the expansion relation is stated.
#[verifier::external_body]
fn tera_render(t: &tera::Tera, name: &str, ctx: &tera::Context) -> (r: Result<String, String>)
    ensures
        r matches Ok(out) ==> tera_expands_to(
            tera_templates(*t),
            name@,
            context_view(*ctx),
            out@,
        ),
{
    match t.render(name, ctx) {
        Ok(s) => Ok(s),
        Err(e) => Err(e.to_string()),
    }
}

/// Relies on tera::Context::new: an empty rendering context, binding
/// nothing.
#[verifier::external_body]
fn context_new() -> (c: tera::Context)
    ensures
        context_view(c) == empty_bindings(),
{
    tera::Context::new()
}

/// Relies on tera::Context::insert: serializes the value and binds it to
/// the key, so the context then binds exactly what it bound before plus
/// this key with this value.
#[verifier::external_body]
fn context_insert(ctx: &mut tera::Context, key: &str, val: &serde_json::Value)
    ensures
        context_view(*final(ctx)) == context_view(*old(ctx)).insert(key@, json_view(*val)),
{
    ctx.insert(key.to_string(), val);
}

/// Relies on serde_json::Value::Null: the null value.
#[verifier::external_body]
fn json_null() -> (v: serde_json::Value)
    ensures
        json_view(v) == JsonView::Null,
{
    serde_json::Value::Null
}

/// Relies on serde_json::Value::String: a string value.
#[verifier::external_body]
fn json_string(s: &str) -> (v: serde_json::Value)
    ensures
        json_view(v) == JsonView::Text(s@),
{
    serde_json::Value::String(s.to_string())
}

/// Relies on serde_json::Value::from: an unsigned integer value.
#[verifier::external_body]
fn json_u64(n: u64) -> (v: serde_json::Value)
    ensures
        json_view(v) == JsonView::Uint(n),
{
    serde_json::Value::from(n)
}

/// Relies on serde_json::Value::Array: an array of the given values, in
/// their given order.
#[verifier::external_body]
fn json_array(items: Vec<serde_json::Value>) -> (v: serde_json::Value)
    ensures
        json_view(v) == JsonView::List(
            items@.map_values(|x: serde_json::Value| json_view(x)),
        ),
{
    serde_json::Value::Array(items)
}

/// Relies on serde_json::Map::new: an empty object.
#[verifier::external_body]
fn json_object_new() -> (m: serde_json::Map<String, serde_json::Value>)
    ensures
        object_view(m) == empty_bindings(),
{
    serde_json::Map::new()
}

/// Relies on serde_json::Map::insert: binds the value to the key, so the
/// object then holds exactly what it held before plus this key with this
/// value.
#[verifier::external_body]
fn json_object_insert(
    m: &mut serde_json::Map<String, serde_json::Value>,
    key: &str,
    v: serde_json::Value,
)
    ensures
        object_view(*final(m)) == object_view(*old(m)).insert(key@, json_view(v)),
{
    m.insert(key.to_string(), v);
}

/// Relies on serde_json::Value::Object: the object as a value.
#[verifier::external_body]
fn json_object(m: serde_json::Map<String, serde_json::Value>) -> (v: serde_json::Value)
    ensures
        json_view(v) == JsonView::Record(object_view(m)),
{
    serde_json::Value::Object(m)
}

/// The projection of an amount: an integer for a whole amount, the decimal
/// text for a fractional one, null for an absent one.
pub open spec fn spec_amount_json(amount: Option<u64>) -> JsonView {
    match amount {
        Some(milli) => {
            if milli % 1000 == 0 {
                JsonView::Uint((milli / 1000) as u64)
            } else {
                JsonView::Text(spec_amount(milli as nat))
            }
        },
        None => JsonView::Null,
    }
}

/// The projection of an optional string: the text, or null when absent.
pub open spec fn spec_opt_text_json(s: Option<String>) -> JsonView {
    match s {
        Some(text) => JsonView::Text(text@),
        None => JsonView::Null,
    }
}

/// The projection of one ingredient: a record with its `name`, `amount` and
/// `unit`, the amount as written, unscaled.
pub open spec fn spec_ingredient_json(i: Ingredient) -> JsonView {
    JsonView::Record(
        Map::<Seq<char>, JsonView>::empty().insert("name"@, JsonView::Text(i.name@)).insert(
            "amount"@,
            spec_amount_json(i.amount),
        ).insert("unit"@, spec_opt_text_json(i.unit)),
    )
}

/// The complete projection of a recipe: the flat mapping that is this
/// module's contract with user templates. The metadata fields stand at the
/// top level, not nested; `servings` is the as-written count, untouched by
/// any override; `steps` and `ingredients` keep the recipe's order.
pub open spec fn spec_projection(r: Recipe) -> Map<Seq<char>, JsonView> {
    Map::<Seq<char>, JsonView>::empty().insert("name"@, JsonView::Text(r.metadata.name@)).insert(
        "author"@,
        JsonView::Text(r.metadata.author@),
    ).insert("servings"@, JsonView::Uint(r.metadata.servings as u64)).insert(
        "url"@,
        spec_opt_text_json(r.metadata.url),
    ).insert(
        "prep_minutes"@,
        match r.metadata.prep_minutes {
            Some(p) => JsonView::Uint(p as u64),
            None => JsonView::Null,
        },
    ).insert("cook_minutes"@, JsonView::Uint(r.metadata.cook_minutes as u64)).insert(
        "steps"@,
        JsonView::List(r.steps@.map_values(|s: String| JsonView::Text(s@))),
    ).insert(
        "ingredients"@,
        JsonView::List(r.ingredients@.map_values(|i: Ingredient| spec_ingredient_json(i))),
    )
}

/// The structured value an amount is projected to, as
/// [`spec_amount_json`] describes.
fn amount_value(amount: &Option<u64>) -> (v: serde_json::Value)
    ensures
        json_view(v) == spec_amount_json(*amount),
{
    match amount {
        Some(milli) => {
            if milli % 1000 == 0 {
                json_u64(milli / 1000)
            } else {
                let mut text = String::new();
                push_amount(&mut text, *milli as u128);
                json_string(text.as_str())
            }
        },
        None => json_null(),
    }
}

/// The structured value a string option is projected to, as
/// [`spec_opt_text_json`] describes.
fn optional_string_value(s: &Option<String>) -> (v: serde_json::Value)
    ensures
        json_view(v) == spec_opt_text_json(*s),
{
    match s {
        Some(text) => json_string(text.as_str()),
        None => json_null(),
    }
}

/// The structured value one ingredient is projected to, as
/// [`spec_ingredient_json`] describes.
fn ingredient_value(ing: &Ingredient) -> (v: serde_json::Value)
    ensures
        json_view(v) == spec_ingredient_json(*ing),
{
    let mut m = json_object_new();
    json_object_insert(&mut m, "name", json_string(ing.name.as_str()));
    json_object_insert(&mut m, "amount", amount_value(&ing.amount));
    json_object_insert(&mut m, "unit", optional_string_value(&ing.unit));
    json_object(m)
}

/// The rendering context a recipe is projected to: it binds exactly the
/// mapping of [`spec_projection`].
fn recipe_context(recipe: &Recipe) -> (c: tera::Context)
    ensures
        context_view(c) == spec_projection(*recipe),
{
    let mut ctx = context_new();
    context_insert(&mut ctx, "name", &json_string(recipe.metadata.name.as_str()));
    context_insert(&mut ctx, "author", &json_string(recipe.metadata.author.as_str()));
    context_insert(&mut ctx, "servings", &json_u64(recipe.metadata.servings as u64));
    context_insert(&mut ctx, "url", &optional_string_value(&recipe.metadata.url));
    let prep = match &recipe.metadata.prep_minutes {
        Some(p) => json_u64(*p as u64),
        None => json_null(),
    };
    context_insert(&mut ctx, "prep_minutes", &prep);
    context_insert(&mut ctx, "cook_minutes", &json_u64(recipe.metadata.cook_minutes as u64));

    let mut steps: Vec<serde_json::Value> = Vec::new();
    let mut i: usize = 0;
    while i < recipe.steps.len()
        invariant
            i <= recipe.steps@.len(),
            steps@.len() == i,
            forall|k: int| #![trigger steps@[k]] 0 <= k < i ==> json_view(steps@[k])
                == JsonView::Text(recipe.steps@[k]@),
        decreases recipe.steps@.len() - i,
    {
        steps.push(json_string(recipe.steps[i].as_str()));
        i = i + 1;
    }
    proof {
        assert(steps@.map_values(|x: serde_json::Value| json_view(x)) =~= recipe.steps@
            .map_values(|s: String| JsonView::Text(s@)));
    }
    context_insert(&mut ctx, "steps", &json_array(steps));

    let mut ings: Vec<serde_json::Value> = Vec::new();
    let mut j: usize = 0;
    while j < recipe.ingredients.len()
        invariant
            j <= recipe.ingredients@.len(),
            ings@.len() == j,
            forall|k: int| #![trigger ings@[k]] 0 <= k < j ==> json_view(ings@[k])
                == spec_ingredient_json(recipe.ingredients@[k]),
        decreases recipe.ingredients@.len() - j,
    {
        ings.push(ingredient_value(&recipe.ingredients[j]));
        j = j + 1;
    }
    proof {
        assert(ings@.map_values(|x: serde_json::Value| json_view(x)) =~= recipe.ingredients@
            .map_values(|i: Ingredient| spec_ingredient_json(i)));
    }
    context_insert(&mut ctx, "ingredients", &json_array(ings));
    ctx
}

/// Renders recipes using a tera template.
pub struct TemplateRenderer {
    env: tera::Tera,
}

impl TemplateRenderer {
    /// The templates this renderer's engine holds, source text by name.
    pub closed spec fn spec_templates(&self) -> Map<Seq<char>, Seq<char>> {
        tera_templates(self.env)
    }

    /// Create a new renderer using the provided raw template string: the
    /// renderer is returned exactly when the template engine accepts the
    /// text, and it then holds that one template; an ill-formed template is
    /// rejected here, at registration.
    pub fn from_str(template: &str) -> (r: Result<TemplateRenderer, SousError>)
        ensures
            r is Ok <==> tera_compiles("template"@, template@),
            r matches Ok(tr) ==> tr.spec_templates() == Map::<Seq<char>, Seq<char>>::empty()
                .insert("template"@, template@),
            r matches Err(e) ==> e is TemplateError,
    {
        match tera_for_template("template", template) {
            Ok(env) => Ok(TemplateRenderer { env }),
            Err(m) => Err(SousError::TemplateError(m)),
        }
    }
}

impl Renderer for TemplateRenderer {
    /// On success the output is an expansion of this renderer's template
    /// against the complete projection of the recipe — the as-written
    /// values of [`spec_projection`], with no rescaling and no toggles.
    open spec fn renders_to(&self, recipe: Recipe, out: Seq<char>) -> bool {
        tera_expands_to(self.spec_templates(), "template"@, spec_projection(recipe), out)
    }

    /// The engine decides success; whatever it decides, an error is a
    /// template error, and an output stands in the expansion relation to
    /// exactly this template and the recipe's projection.
    fn render(&self, recipe: &Recipe) -> (r: Result<String, SousError>)
        ensures
            r matches Err(e) ==> e is TemplateError,
    {
        let ctx = recipe_context(recipe);
        match tera_render(&self.env, "template", &ctx) {
            Ok(s) => Ok(s),
            Err(m) => Err(SousError::TemplateError(m)),
        }
    }
}

} // verus!
