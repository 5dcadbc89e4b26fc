//! Types for rendering recipes to other formats.
//!
//! The fixed-layout Markdown output is specified, character for character, by
//! the `spec_` functions in this module; [`MarkdownRenderer::render_to_string`]
//! is proved to produce exactly that text.

use vstd::prelude::*;

use crate::error::SousError;
use crate::ingredient::Ingredient;
use crate::metadata::Metadata;
use crate::numtext::push_amount;
use crate::numtext::push_dec;
use crate::numtext::spec_amount;
use crate::numtext::spec_dec;
use crate::recipe::Recipe;

verus! {

/// A type that can render a recipe to a String.
pub trait Renderer {
    /// What this renderer may return for `recipe` when it succeeds.
    spec fn renders_to(&self, recipe: Recipe, out: Seq<char>) -> bool;

    /// Construct a String representation of the provided [Recipe].
    fn render(&self, recipe: &Recipe) -> (r: Result<String, SousError>)
        ensures
            r matches Ok(out) ==> self.renders_to(*recipe, out@),
    ;
}

/// Renders recipes in Markdown format.
#[derive(Clone, Debug)]
pub struct MarkdownRenderer {
    /// Whether to use YAML front matter instead of pure Markdown.
    pub front_matter: bool,
    /// Whether to skip outputting meta information.
    pub skip_meta: bool,
    /// Whether to skip outputting the ingredient list.
    pub skip_ingredients: bool,
    /// Whether to skip outputting the procedure.
    pub skip_steps: bool,
    /// Optionally override the serving count when outputting.
    pub servings: Option<u32>,
}

/// The serving count that is displayed and that amounts are scaled to: the
/// override when one is set, else the count the recipe as written yields.
pub open spec fn spec_display_servings(r: Recipe, o: MarkdownRenderer) -> u32 {
    match o.servings {
        Some(s) => s,
        None => r.metadata.servings,
    }
}

/// The serving-rescale policy: an amount of `milli` thousandths of a unit,
/// scaled in proportion from `base` servings to `target` servings and rounded
/// down to a whole thousandth. A base of zero would make the ratio undefined,
/// so the amount is then left unscaled.
pub open spec fn spec_scaled(milli: nat, target: nat, base: nat) -> nat {
    if base == 0 {
        milli
    } else {
        (milli * target) / base
    }
}

/// The header of the meta block: either a YAML front-matter block with the
/// title and the author, or a level-1 heading with the name followed by a
/// bolded author line that also carries the url, when one is present,
/// separated by a pipe.
pub open spec fn spec_header(m: Metadata, front_matter: bool) -> Seq<char> {
    if front_matter {
        "---\ntitle: "@ + m.name@ + "\nauthor: "@ + m.author@ + "\n---\n\n"@
    } else {
        "# "@ + m.name@ + "\n**"@ + m.author@ + (match m.url {
            Some(u) => " | "@ + u@,
            None => Seq::<char>::empty(),
        }) + "**\n"@
    }
}

/// The bolded summary line: the displayed serving count, the prep minutes
/// when present, and the cook minutes, followed by a blank line.
pub open spec fn spec_summary(m: Metadata, servings: u32) -> Seq<char> {
    "**"@ + spec_dec(servings as nat) + " servings"@ + (match m.prep_minutes {
        Some(p) => " | "@ + spec_dec(p as nat) + " minutes prep"@,
        None => Seq::<char>::empty(),
    }) + " | "@ + spec_dec(m.cook_minutes as nat) + " minutes cook time**\n\n"@
}

/// The whole meta block: header, then summary line.
pub open spec fn spec_meta_block(m: Metadata, servings: u32, front_matter: bool) -> Seq<char> {
    spec_header(m, front_matter) + spec_summary(m, servings)
}

/// One bullet line: a star, then the given amount text, the unit and the
/// name, each preceded by a space where present.
pub open spec fn spec_bullet(amount_text: Option<Seq<char>>, unit: Option<String>, name: Seq<
    char,
>) -> Seq<char> {
    "*"@ + (match amount_text {
        Some(t) => " "@ + t,
        None => Seq::<char>::empty(),
    }) + (match unit {
        Some(u) => " "@ + u@,
        None => Seq::<char>::empty(),
    }) + " "@ + name + "\n"@
}

/// The bullet line of one ingredient, its amount scaled from `base` to
/// `target` servings; an absent amount stays absent.
pub open spec fn spec_ingredient_line(i: Ingredient, target: nat, base: nat) -> Seq<char> {
    spec_bullet(
        match i.amount {
            Some(a) => Some(spec_amount(spec_scaled(a as nat, target, base))),
            None => None,
        },
        i.unit,
        i.name@,
    )
}

/// The bullet lines of all ingredients, in their original order.
pub open spec fn spec_ingredient_lines(ings: Seq<Ingredient>, target: nat, base: nat) -> Seq<char>
    decreases ings.len(),
{
    if ings.len() == 0 {
        Seq::<char>::empty()
    } else {
        spec_ingredient_lines(ings.drop_last(), target, base) + spec_ingredient_line(
            ings.last(),
            target,
            base,
        )
    }
}

/// The ingredients section: its heading, the bullet lines, a blank line.
pub open spec fn spec_ingredients_block(ings: Seq<Ingredient>, target: nat, base: nat) -> Seq<
    char,
> {
    "## Ingredients\n"@ + spec_ingredient_lines(ings, target, base) + "\n"@
}

/// One numbered method line: the one-based index, a dot, the step text.
pub open spec fn spec_step_line(idx: nat, step: Seq<char>) -> Seq<char> {
    spec_dec(idx + 1) + ". "@ + step + "\n"@
}

/// The numbered method lines, numbered contiguously from 1 in original order.
pub open spec fn spec_step_lines(steps: Seq<String>) -> Seq<char>
    decreases steps.len(),
{
    if steps.len() == 0 {
        Seq::<char>::empty()
    } else {
        spec_step_lines(steps.drop_last()) + spec_step_line(
            (steps.len() - 1) as nat,
            steps.last()@,
        )
    }
}

/// The method section: its heading, then the numbered lines.
pub open spec fn spec_steps_block(steps: Seq<String>) -> Seq<char> {
    "## Method\n"@ + spec_step_lines(steps)
}

/// The complete fixed-layout Markdown output: the enabled sections in the
/// fixed order meta, ingredients, steps, and a final blank line; a toggled-off
/// section contributes nothing.
pub open spec fn spec_markdown(r: Recipe, o: MarkdownRenderer) -> Seq<char> {
    let servings = spec_display_servings(r, o);
    (if !o.skip_meta {
        spec_meta_block(r.metadata, servings, o.front_matter)
    } else {
        Seq::<char>::empty()
    }) + (if !o.skip_ingredients {
        spec_ingredients_block(r.ingredients@, servings as nat, r.metadata.servings as nat)
    } else {
        Seq::<char>::empty()
    }) + (if !o.skip_steps {
        spec_steps_block(r.steps@)
    } else {
        Seq::<char>::empty()
    }) + "\n"@
}

/// Scale an amount of `milli` thousandths from `base` servings to `target`
/// servings; with a base of zero the amount is left unscaled.
pub fn scale_amount(milli: u64, target: u32, base: u32) -> (r: u128)
    ensures
        r == spec_scaled(milli as nat, target as nat, base as nat),
{
    if base == 0 {
        milli as u128
    } else {
        proof {
            assert((milli as u128) * (target as u128) <= (u64::MAX as u128) * (u32::MAX as u128))
                by (nonlinear_arith)
                requires
                    milli <= u64::MAX,
                    target <= u32::MAX,
            ;
        }
        (milli as u128) * (target as u128) / (base as u128)
    }
}

impl MarkdownRenderer {
    /// Create a renderer with the default configuration: every section
    /// enabled, the Markdown heading style, and no serving override.
    pub fn new() -> (r: MarkdownRenderer)
        ensures
            !r.front_matter,
            !r.skip_meta,
            !r.skip_ingredients,
            !r.skip_steps,
            r.servings is None,
    {
        MarkdownRenderer {
            front_matter: false,
            skip_meta: false,
            skip_ingredients: false,
            skip_steps: false,
            servings: None,
        }
    }

    /// Render `recipe` in the fixed Markdown layout. Rendering is total: it
    /// produces exactly the text that [`spec_markdown`] describes, for every
    /// recipe and every configuration.
    pub fn render_to_string(&self, recipe: &Recipe) -> (out: String)
        ensures
            out@ == spec_markdown(*recipe, *self),
    {
        let mut out = String::new();
        let servings: u32 = match self.servings {
            Some(s) => s,
            None => recipe.metadata.servings,
        };

        if !self.skip_meta {
            push_meta(&mut out, &recipe.metadata, servings, self.front_matter);
        }
        if !self.skip_ingredients {
            push_ingredients(&mut out, &recipe.ingredients, servings, recipe.metadata.servings);
        }
        if !self.skip_steps {
            push_steps(&mut out, &recipe.steps);
        }
        out.append("\n");
        proof {
            assert(out@ =~= spec_markdown(*recipe, *self));
        }
        out
    }
}

fn push_meta(out: &mut String, m: &Metadata, servings: u32, front_matter: bool)
    ensures
        final(out)@ == old(out)@ + spec_meta_block(*m, servings, front_matter),
{
    push_header(out, m, front_matter);
    push_summary(out, m, servings);
    proof {
        assert(out@ =~= old(out)@ + spec_meta_block(*m, servings, front_matter));
    }
}

fn push_header(out: &mut String, m: &Metadata, front_matter: bool)
    ensures
        final(out)@ == old(out)@ + spec_header(*m, front_matter),
{
    if front_matter {
        out.append("---\ntitle: ");
        out.append(m.name.as_str());
        out.append("\nauthor: ");
        out.append(m.author.as_str());
        out.append("\n---\n\n");
    } else {
        out.append("# ");
        out.append(m.name.as_str());
        out.append("\n**");
        out.append(m.author.as_str());
        match &m.url {
            Some(u) => {
                out.append(" | ");
                out.append(u.as_str());
            },
            None => {},
        }
        out.append("**\n");
    }
    proof {
        assert(out@ =~= old(out)@ + spec_header(*m, front_matter));
    }
}

fn push_summary(out: &mut String, m: &Metadata, servings: u32)
    ensures
        final(out)@ == old(out)@ + spec_summary(*m, servings),
{
    out.append("**");
    push_dec(out, servings as u128);
    out.append(" servings");
    match &m.prep_minutes {
        Some(p) => {
            out.append(" | ");
            push_dec(out, *p as u128);
            out.append(" minutes prep");
        },
        None => {},
    }
    out.append(" | ");
    push_dec(out, m.cook_minutes as u128);
    out.append(" minutes cook time**\n\n");
    proof {
        assert(out@ =~= old(out)@ + spec_summary(*m, servings));
    }
}

fn push_ingredients(out: &mut String, ings: &Vec<Ingredient>, target: u32, base: u32)
    ensures
        final(out)@ == old(out)@ + spec_ingredients_block(ings@, target as nat, base as nat),
{
    out.append("## Ingredients\n");
    let mut idx: usize = 0;
    while idx < ings.len()
        invariant
            idx <= ings.len(),
            out@ == old(out)@ + "## Ingredients\n"@ + spec_ingredient_lines(
                ings@.take(idx as int),
                target as nat,
                base as nat,
            ),
        decreases ings.len() - idx,
    {
        let ghost before = out@;
        let ing = &ings[idx];
        out.append("*");
        match &ing.amount {
            Some(a) => {
                out.append(" ");
                let scaled = scale_amount(*a, target, base);
                push_amount(out, scaled);
            },
            None => {},
        }
        match &ing.unit {
            Some(u) => {
                out.append(" ");
                out.append(u.as_str());
            },
            None => {},
        }
        out.append(" ");
        out.append(ing.name.as_str());
        out.append("\n");
        proof {
            assert(out@ =~= before + spec_ingredient_line(
                ings@[idx as int],
                target as nat,
                base as nat,
            ));
            assert(ings@.take(idx as int + 1).drop_last() =~= ings@.take(idx as int));
            assert(ings@.take(idx as int + 1).last() == ings@[idx as int]);
            assert(out@ =~= old(out)@ + "## Ingredients\n"@ + spec_ingredient_lines(
                ings@.take(idx as int + 1),
                target as nat,
                base as nat,
            ));
        }
        idx = idx + 1;
    }
    proof {
        assert(ings@.take(ings@.len() as int) =~= ings@);
    }
    out.append("\n");
    proof {
        assert(out@ =~= old(out)@ + spec_ingredients_block(ings@, target as nat, base as nat));
    }
}

fn push_steps(out: &mut String, steps: &Vec<String>)
    ensures
        final(out)@ == old(out)@ + spec_steps_block(steps@),
{
    out.append("## Method\n");
    let mut idx: usize = 0;
    while idx < steps.len()
        invariant
            idx <= steps.len(),
            out@ == old(out)@ + "## Method\n"@ + spec_step_lines(steps@.take(idx as int)),
        decreases steps.len() - idx,
    {
        let ghost before = out@;
        push_dec(out, (idx as u128) + 1);
        out.append(". ");
        out.append(steps[idx].as_str());
        out.append("\n");
        proof {
            assert(out@ =~= before + spec_step_line(idx as nat, steps@[idx as int]@));
            assert(steps@.take(idx as int + 1).drop_last() =~= steps@.take(idx as int));
            assert(steps@.take(idx as int + 1).last() == steps@[idx as int]);
            assert(out@ =~= old(out)@ + "## Method\n"@ + spec_step_lines(
                steps@.take(idx as int + 1),
            ));
        }
        idx = idx + 1;
    }
    proof {
        assert(steps@.take(steps@.len() as int) =~= steps@);
    }
}

/// Law: scaling an amount to the serving count the recipe as written already
/// yields leaves the amount unchanged.
pub proof fn lemma_scale_identity(milli: nat, base: nat)
    requires
        base > 0,
    ensures
        spec_scaled(milli, base, base) == milli,
{
    vstd::arithmetic::div_mod::lemma_div_by_multiple(milli as int, base as int);
}

/// Law: scaling an amount to `k` times the serving count the recipe as
/// written yields multiplies the amount by exactly `k`.
pub proof fn lemma_scale_linear(milli: nat, k: nat, base: nat)
    requires
        base > 0,
    ensures
        spec_scaled(milli, k * base, base) == k * milli,
{
    assert(milli * (k * base) == (k * milli) * base) by (nonlinear_arith);
    vstd::arithmetic::div_mod::lemma_div_by_multiple((k * milli) as int, base as int);
}

/// Law: rendering with a serving override equal to the recipe's own serving
/// count produces exactly the output of rendering with no override at all.
pub proof fn lemma_render_round_trip(r: Recipe, o1: MarkdownRenderer, o2: MarkdownRenderer)
    requires
        o1.servings == Some(r.metadata.servings),
        o2.servings is None,
        o1.front_matter == o2.front_matter,
        o1.skip_meta == o2.skip_meta,
        o1.skip_ingredients == o2.skip_ingredients,
        o1.skip_steps == o2.skip_steps,
    ensures
        spec_markdown(r, o1) == spec_markdown(r, o2),
{
    assert(spec_display_servings(r, o1) == spec_display_servings(r, o2));
}

/// Law: with a target of `k` times the as-written serving count, an
/// ingredient's bullet line shows its amount multiplied by exactly `k`; an
/// ingredient without an amount renders with no amount and still shows its
/// unit and name.
pub proof fn lemma_line_scaling_linear(i: Ingredient, k: nat, base: nat)
    requires
        base > 0,
    ensures
        spec_ingredient_line(i, k * base, base) == spec_bullet(
            match i.amount {
                Some(a) => Some(spec_amount(k * (a as nat))),
                None => None,
            },
            i.unit,
            i.name@,
        ),
{
    match i.amount {
        Some(a) => lemma_scale_linear(a as nat, k, base),
        None => {},
    }
}

/// Law: the output is always the enabled sections' blocks in the fixed order
/// meta, ingredients, steps, then the final blank line; a toggled-off section
/// contributes nothing, and each block's text depends only on the recipe and
/// the displayed serving count, never on the other sections' toggles.
pub proof fn lemma_section_toggling(r: Recipe, o: MarkdownRenderer)
    ensures
        spec_markdown(r, o) == (if !o.skip_meta {
            spec_meta_block(r.metadata, spec_display_servings(r, o), o.front_matter)
        } else {
            Seq::<char>::empty()
        }) + (if !o.skip_ingredients {
            spec_ingredients_block(
                r.ingredients@,
                spec_display_servings(r, o) as nat,
                r.metadata.servings as nat,
            )
        } else {
            Seq::<char>::empty()
        }) + (if !o.skip_steps {
            spec_steps_block(r.steps@)
        } else {
            Seq::<char>::empty()
        }) + "\n"@,
{
}

/// Law: when the meta section is emitted, the output begins with the
/// front-matter delimiter line when front matter is selected and with a
/// level-1 Markdown heading otherwise; the two beginnings differ already in
/// their first character, so exactly one of the two header styles opens a
/// render.
pub proof fn lemma_header_style(r: Recipe, o: MarkdownRenderer)
    requires
        !o.skip_meta,
    ensures
        spec_markdown(r, o).len() > 0,
        o.front_matter ==> spec_markdown(r, o).subrange(0, 4) == "---\n"@,
        !o.front_matter ==> spec_markdown(r, o).subrange(0, 2) == "# "@,
        (spec_markdown(r, o)[0] == '-') <==> o.front_matter,
        (spec_markdown(r, o)[0] == '#') <==> !o.front_matter,
{
    reveal_strlit("---\ntitle: ");
    reveal_strlit("# ");
    reveal_strlit("---\n");
    let md = spec_markdown(r, o);
    let header = spec_header(r.metadata, o.front_matter);
    assert(md.len() >= header.len());
    assert(forall|j: int| 0 <= j < header.len() ==> md[j] == header[j]);
    if o.front_matter {
        assert(header.len() >= 11);
        assert(header[0] == '-' && header[1] == '-' && header[2] == '-' && header[3] == '\n');
        assert(md.subrange(0, 4) =~= "---\n"@);
    } else {
        assert(header.len() >= 2);
        assert(header[0] == '#' && header[1] == ' ');
        assert(md.subrange(0, 2) =~= "# "@);
    }
}

impl Renderer for MarkdownRenderer {
    /// The Markdown renderer produces exactly the text of [`spec_markdown`].
    open spec fn renders_to(&self, recipe: Recipe, out: Seq<char>) -> bool {
        out == spec_markdown(recipe, *self)
    }

    /// The fixed renderer is total: it always succeeds.
    fn render(&self, recipe: &Recipe) -> (r: Result<String, SousError>)
        ensures
            r is Ok,
    {
        Ok(self.render_to_string(recipe))
    }
}

} // verus!
