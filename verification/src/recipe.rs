//! Types for representing culinary recipes.
//!
//! Parsing is split in two. Extraction walks the parsed value tree and
//! yields plain [`RawField`] values, with contracts over the tree's view.
//! Assembly turns those plain values into a [`Recipe`], and every one of
//! its rules — which fields are required, which counts are in range, that
//! order and absence are preserved — is a public verified function with an
//! exact contract. [`Recipe::from_yaml`] ties the two together: it succeeds
//! exactly on the documents whose view satisfies the rules, and the recipe
//! it produces is what the rules give for that view.

use vstd::prelude::*;

use crate::error::SousError;
use crate::ingredient::Ingredient;
use crate::metadata::Metadata;
use crate::numtext::parse_amount;
use crate::numtext::spec_parse_amount;
use crate::yaml::yaml_as_sequence;
use crate::yaml::yaml_as_string;
use crate::yaml::yaml_as_u64;
use crate::yaml::yaml_doc;
use crate::yaml::yaml_get;
use crate::yaml::yaml_number_text;
use crate::yaml::yaml_parse;
use crate::yaml::yaml_view;
use crate::yaml::yaml_wf;
use crate::yaml::YamlView;

verus! {

/// A culinary recipe describing how to make a dish.
#[derive(Clone, Debug, PartialEq)]
pub struct Recipe {
    /// Recipe [Metadata].
    pub metadata: Metadata,
    /// List of steps required to make the dish.
    pub steps: Vec<String>,
    /// List of [Ingredient]s required to make the dish.
    pub ingredients: Vec<Ingredient>,
}

/// What extracting a field from a document yielded: the field was absent,
/// present but not of the required shape, or held the given plain value.
#[derive(Debug, PartialEq)]
pub enum RawField<T> {
    /// The field is absent.
    Missing,
    /// The field is present but not of the required shape.
    Invalid,
    /// The plain value the field holds.
    Given(T),
}

/// The view of an extracted string field.
pub open spec fn raw_text_view(r: RawField<String>) -> RawField<Seq<char>> {
    match r {
        RawField::Missing => RawField::Missing,
        RawField::Invalid => RawField::Invalid,
        RawField::Given(s) => RawField::Given(s@),
    }
}

/// What extracting the given field as a string yields from a mapping's
/// view.
pub open spec fn spec_string_field(m: Map<Seq<char>, YamlView>, key: Seq<char>) -> RawField<
    Seq<char>,
> {
    if !m.contains_key(key) {
        RawField::Missing
    } else {
        match m[key] {
            YamlView::Text(t) => RawField::Given(t),
            _ => RawField::Invalid,
        }
    }
}

/// What extracting the given field as a non-negative integer yields from a
/// mapping's view.
pub open spec fn spec_u64_field(m: Map<Seq<char>, YamlView>, key: Seq<char>) -> RawField<u64> {
    if !m.contains_key(key) {
        RawField::Missing
    } else {
        match m[key] {
            YamlView::Num(u, t) => match u {
                Some(n) => RawField::Given(n),
                None => RawField::Invalid,
            },
            _ => RawField::Invalid,
        }
    }
}

/// What extracting the `amount` field yields from an ingredient mapping's
/// view, in thousandths of a unit: a whole number is scaled directly when
/// it fits, any other number goes through the decimal grammar of
/// [`spec_parse_amount`] on its text.
pub open spec fn spec_amount_field(m: Map<Seq<char>, YamlView>) -> RawField<u64> {
    if !m.contains_key("amount"@) {
        RawField::Missing
    } else {
        match m["amount"@] {
            YamlView::Num(u, t) => match u {
                Some(n) => {
                    if n <= u64::MAX / 1000 {
                        RawField::Given((n * 1000) as u64)
                    } else {
                        RawField::Invalid
                    }
                },
                None => match spec_parse_amount(t) {
                    Some(milli) => RawField::Given(milli),
                    None => RawField::Invalid,
                },
            },
            _ => RawField::Invalid,
        }
    }
}

/// What extracting one ingredient yields: its `name`, `amount` and `unit`
/// fields, or three absences when the entry is not a mapping.
pub open spec fn spec_raw_ingredient(v: YamlView) -> (
    RawField<Seq<char>>,
    RawField<u64>,
    RawField<Seq<char>>,
) {
    match v {
        YamlView::Fields(im) => (
            spec_string_field(im, "name"@),
            spec_amount_field(im),
            spec_string_field(im, "unit"@),
        ),
        _ => (RawField::Missing, RawField::Missing, RawField::Missing),
    }
}

/// The metadata rules of [`assemble_metadata`], read off a document's view.
pub open spec fn spec_metadata_ok(m: Map<Seq<char>, YamlView>) -> bool {
    &&& spec_string_field(m, "name"@) is Given
    &&& spec_string_field(m, "author"@) is Given
    &&& (spec_u64_field(m, "servings"@) matches RawField::Given(n) && 1 <= n <= u32::MAX)
    &&& !(spec_string_field(m, "url"@) is Invalid)
    &&& match spec_u64_field(m, "prep_minutes"@) {
        RawField::Given(p) => p <= u32::MAX,
        RawField::Missing => true,
        RawField::Invalid => false,
    }
    &&& (spec_u64_field(m, "cook_minutes"@) matches RawField::Given(c) && c <= u32::MAX)
}

/// That `md` holds exactly the metadata a document's view gives.
pub open spec fn spec_metadata_matches(m: Map<Seq<char>, YamlView>, md: Metadata) -> bool {
    &&& (spec_string_field(m, "name"@) matches RawField::Given(t) && md.name@ == t)
    &&& (spec_string_field(m, "author"@) matches RawField::Given(t) && md.author@ == t)
    &&& (spec_u64_field(m, "servings"@) matches RawField::Given(n) && md.servings == n as u32)
    &&& (match spec_string_field(m, "url"@) {
        RawField::Given(t) => md.url matches Some(u) && u@ == t,
        _ => md.url is None,
    })
    &&& (match spec_u64_field(m, "prep_minutes"@) {
        RawField::Given(p) => md.prep_minutes matches Some(q) && q == p as u32,
        _ => md.prep_minutes is None,
    })
    &&& (spec_u64_field(m, "cook_minutes"@) matches RawField::Given(c) && md.cook_minutes == c
        as u32)
}

/// The steps rule read off a document's view: a `steps` sequence whose
/// entries are all strings.
pub open spec fn spec_steps_ok(m: Map<Seq<char>, YamlView>) -> bool {
    &&& m.contains_key("steps"@)
    &&& (m["steps"@] matches YamlView::List(l) && (forall|k: int|
        #![trigger l[k]]
        0 <= k < l.len() ==> l[k] is Text))
}

/// That `steps` holds exactly the document's step strings, in order.
pub open spec fn spec_steps_match(m: Map<Seq<char>, YamlView>, steps: Seq<String>) -> bool {
    m.contains_key("steps"@) && (m["steps"@] matches YamlView::List(l) && steps.len() == l.len()
        && (forall|k: int|
        #![trigger l[k]]
        0 <= k < l.len() ==> (l[k] matches YamlView::Text(t) && steps[k]@ == t)))
}

/// The rule for one ingredient entry, read off its view: a mapping with a
/// given `name` and no ill-shaped `amount` or `unit`.
pub open spec fn spec_ingredient_ok(v: YamlView) -> bool {
    &&& spec_raw_ingredient(v).0 is Given
    &&& !(spec_raw_ingredient(v).1 is Invalid)
    &&& !(spec_raw_ingredient(v).2 is Invalid)
}

/// That `ing` holds exactly what one entry's view gives.
pub open spec fn spec_ingredient_matches(v: YamlView, ing: Ingredient) -> bool {
    &&& (spec_raw_ingredient(v).0 matches RawField::Given(t) && ing.name@ == t)
    &&& ing.amount == (match spec_raw_ingredient(v).1 {
        RawField::Given(a) => Some(a),
        _ => None::<u64>,
    })
    &&& (match spec_raw_ingredient(v).2 {
        RawField::Given(t) => ing.unit matches Some(u) && u@ == t,
        _ => ing.unit is None,
    })
}

/// The ingredients rule read off a document's view.
pub open spec fn spec_ingredients_ok(m: Map<Seq<char>, YamlView>) -> bool {
    &&& m.contains_key("ingredients"@)
    &&& (m["ingredients"@] matches YamlView::List(l) && (forall|k: int|
        #![trigger l[k]]
        0 <= k < l.len() ==> spec_ingredient_ok(l[k])))
}

/// That `ings` holds exactly the document's ingredients, in order.
pub open spec fn spec_ingredients_match(m: Map<Seq<char>, YamlView>, ings: Seq<Ingredient>) -> bool {
    m.contains_key("ingredients"@) && (m["ingredients"@] matches YamlView::List(l) && ings.len()
        == l.len() && (forall|k: int|
        #![trigger l[k]]
        0 <= k < l.len() ==> spec_ingredient_matches(l[k], ings[k])))
}

/// The whole parse rule: the document is a mapping satisfying the
/// metadata, steps and ingredients rules.
pub open spec fn spec_recipe_ok(d: YamlView) -> bool {
    d matches YamlView::Fields(m) && spec_metadata_ok(m) && spec_steps_ok(m)
        && spec_ingredients_ok(m)
}

/// That `rec` is exactly the recipe the document's view gives.
pub open spec fn spec_recipe_matches(d: YamlView, rec: Recipe) -> bool {
    d matches YamlView::Fields(m) && spec_metadata_matches(m, rec.metadata) && spec_steps_match(
        m,
        rec.steps@,
    ) && spec_ingredients_match(m, rec.ingredients@)
}

impl Recipe {
    /// Create a new, empty recipe.
    pub fn new() -> (r: Recipe)
        ensures
            r.metadata.name@ == Seq::<char>::empty(),
            r.metadata.author@ == Seq::<char>::empty(),
            r.metadata.servings == 0,
            r.metadata.url is None,
            r.metadata.prep_minutes is None,
            r.metadata.cook_minutes == 0,
            r.steps@ == Seq::<String>::empty(),
            r.ingredients@ == Seq::<Ingredient>::empty(),
    {
        Recipe { metadata: Metadata::new(), steps: Vec::new(), ingredients: Vec::new() }
    }

    /// Load a recipe from the provided YAML string slice.
    ///
    /// Parsing is all-or-nothing: it succeeds exactly when the text is
    /// well-formed YAML whose document satisfies [`spec_recipe_ok`] — the
    /// required fields present and well-typed, the serving count positive —
    /// and the recipe then holds exactly what the document gives
    /// ([`spec_recipe_matches`]): order preserved, absent options absent. A
    /// serving count of zero is rejected, since it would leave the
    /// serving-rescale ratio of rendering undefined.
    pub fn from_yaml(content: &str) -> (r: Result<Recipe, SousError>)
        ensures
            r is Ok <==> yaml_wf(content@) && spec_recipe_ok(yaml_doc(content@)),
            r matches Ok(rec) ==> spec_recipe_matches(yaml_doc(content@), rec),
            r matches Ok(rec) ==> rec.metadata.servings >= 1,
            r matches Err(e) ==> e is YamlError,
    {
        let doc = match yaml_parse(content) {
            Ok(v) => v,
            Err(m) => {
                return Err(SousError::YamlError(m));
            },
        };
        let ghost d = yaml_doc(content@);

        let raw_name = extract_string(&doc, "name");
        let raw_author = extract_string(&doc, "author");
        let raw_servings = extract_u64(&doc, "servings");
        let raw_url = extract_string(&doc, "url");
        let raw_prep = extract_u64(&doc, "prep_minutes");
        let raw_cook = extract_u64(&doc, "cook_minutes");
        let ghost gname = raw_name;
        let ghost gauthor = raw_author;
        let ghost gurl = raw_url;
        let metadata = match assemble_metadata(
            raw_name,
            raw_author,
            raw_servings,
            raw_url,
            raw_prep,
            raw_cook,
        ) {
            Ok(m) => m,
            Err(e) => {
                proof {
                    if d is Fields {
                        let mm = d->Fields_0;
                        assert(spec_string_field(mm, "name"@) is Given <==> gname is Given);
                        assert(spec_string_field(mm, "author"@) is Given <==> gauthor is Given);
                        assert(spec_string_field(mm, "url"@) is Invalid <==> gurl is Invalid);
                        assert(!spec_metadata_ok(mm));
                    }
                    assert(!spec_recipe_ok(d));
                }
                return Err(e);
            },
        };
        proof {
            if !(d is Fields) {
                assert(gname is Missing);
                assert(false);
            }
        }
        let ghost m = d->Fields_0;
        proof {
            assert(spec_string_field(m, "name"@) is Given <==> gname is Given);
            assert(spec_string_field(m, "author"@) is Given <==> gauthor is Given);
            assert(spec_string_field(m, "url"@) is Invalid <==> gurl is Invalid);
            assert(spec_metadata_ok(m));
            assert(spec_metadata_matches(m, metadata));
        }

        let steps_val = match yaml_get(&doc, "steps") {
            Some(v) => v,
            None => {
                proof {
                    assert(!spec_steps_ok(m));
                }
                return Err(field_error("steps"));
            },
        };
        proof {
            assert(m.contains_key("steps"@) && m["steps"@] == yaml_view(*steps_val));
        }
        let steps_list = match yaml_as_sequence(steps_val) {
            Some(l) => l,
            None => {
                proof {
                    assert(!spec_steps_ok(m));
                }
                return Err(field_error("steps"));
            },
        };
        let ghost sl = (match yaml_view(*steps_val) {
            YamlView::List(l) => l,
            _ => Seq::empty(),
        });
        let mut raw_steps: Vec<Option<String>> = Vec::new();
        let mut i: usize = 0;
        while i < steps_list.len()
            invariant
                i <= steps_list@.len(),
                raw_steps@.len() == i,
                yaml_view(*steps_val) == YamlView::List(sl),
                steps_list@.map_values(|x: serde_yaml::Value| yaml_view(x)) == sl,
                forall|k: int|
                    #![trigger raw_steps@[k]]
                    0 <= k < i ==> ((sl[k] matches YamlView::Text(t) ==> (raw_steps@[k]
                        matches Some(st) && st@ == t)) && (!(sl[k] is Text) ==> raw_steps@[k]
                        is None)),
            decreases steps_list@.len() - i,
        {
            proof {
                assert(yaml_view(steps_list@[i as int]) == sl[i as int]);
            }
            raw_steps.push(yaml_as_string(&steps_list[i]));
            i = i + 1;
        }
        let steps = match assemble_steps(&raw_steps) {
            Ok(s) => s,
            Err(e) => {
                proof {
                    let k = choose|k: int| 0 <= k < raw_steps@.len() && !(raw_steps@[k] is Some);
                    assert(!(sl[k] is Text));
                    assert(!spec_steps_ok(m));
                }
                return Err(e);
            },
        };
        proof {
            assert forall|k: int| 0 <= k < sl.len() implies sl[k] is Text by {
                assert(raw_steps@[k] is Some);
            }
            assert(spec_steps_ok(m));
            assert forall|k: int| #![trigger sl[k]]
                0 <= k < sl.len() implies (sl[k] matches YamlView::Text(t) && steps@[k]@
                == t) by {
                assert(raw_steps@[k] is Some);
            }
            assert(spec_steps_match(m, steps@));
        }

        let ings_val = match yaml_get(&doc, "ingredients") {
            Some(v) => v,
            None => {
                proof {
                    assert(!spec_ingredients_ok(m));
                }
                return Err(field_error("ingredients"));
            },
        };
        proof {
            assert(m.contains_key("ingredients"@) && m["ingredients"@] == yaml_view(*ings_val));
        }
        let ings_list = match yaml_as_sequence(ings_val) {
            Some(l) => l,
            None => {
                proof {
                    assert(!spec_ingredients_ok(m));
                }
                return Err(field_error("ingredients"));
            },
        };
        let ghost il = (match yaml_view(*ings_val) {
            YamlView::List(l) => l,
            _ => Seq::empty(),
        });
        let mut raw_ings: Vec<(RawField<String>, RawField<u64>, RawField<String>)> = Vec::new();
        let mut j: usize = 0;
        while j < ings_list.len()
            invariant
                j <= ings_list@.len(),
                raw_ings@.len() == j,
                yaml_view(*ings_val) == YamlView::List(il),
                ings_list@.map_values(|x: serde_yaml::Value| yaml_view(x)) == il,
                forall|k: int|
                    #![trigger raw_ings@[k]]
                    0 <= k < j ==> (
                    raw_text_view(raw_ings@[k].0),
                    raw_ings@[k].1,
                    raw_text_view(raw_ings@[k].2),
                    ) == spec_raw_ingredient(il[k]),
            decreases ings_list@.len() - j,
        {
            proof {
                assert(yaml_view(ings_list@[j as int]) == il[j as int]);
            }
            let v = &ings_list[j];
            raw_ings.push((extract_string(v, "name"), extract_amount(v), extract_string(v, "unit")));
            j = j + 1;
        }
        let ingredients = match assemble_ingredients(&raw_ings) {
            Ok(l) => l,
            Err(e) => {
                proof {
                    let k = choose|k: int|
                        0 <= k < raw_ings@.len() && !(raw_ings@[k].0 is Given && !(raw_ings@[k].1
                            is Invalid) && !(raw_ings@[k].2 is Invalid));
                    assert(raw_text_view(raw_ings@[k].0) == spec_raw_ingredient(il[k]).0);
                    assert(!spec_ingredient_ok(il[k]));
                    assert(!spec_ingredients_ok(m));
                }
                return Err(e);
            },
        };
        proof {
            assert forall|k: int| 0 <= k < il.len() implies spec_ingredient_ok(il[k]) by {
                assert(raw_ings@[k].0 is Given && !(raw_ings@[k].1 is Invalid) && !(raw_ings@[k].2
                    is Invalid));
            }
            assert(spec_ingredients_ok(m));
            assert forall|k: int|
                0 <= k < il.len() implies spec_ingredient_matches(il[k], ingredients@[k]) by {
                assert(raw_text_view(raw_ings@[k].0) == spec_raw_ingredient(il[k]).0);
                assert(raw_text_view(raw_ings@[k].2) == spec_raw_ingredient(il[k]).2);
            }
            assert(spec_ingredients_match(m, ingredients@));
            assert(spec_recipe_ok(d));
        }
        Ok(Recipe { metadata, steps, ingredients })
    }
}

/// What the given top-level field holds, when it is a string.
fn extract_string(doc: &serde_yaml::Value, key: &str) -> (r: RawField<String>)
    ensures
        yaml_view(*doc) matches YamlView::Fields(m) ==> raw_text_view(r) == spec_string_field(
            m,
            key@,
        ),
        !(yaml_view(*doc) is Fields) ==> r is Missing,
{
    match yaml_get(doc, key) {
        Some(v) => match yaml_as_string(v) {
            Some(s) => RawField::Given(s),
            None => RawField::Invalid,
        },
        None => RawField::Missing,
    }
}

/// What the given top-level field holds, when it is a non-negative integer.
fn extract_u64(doc: &serde_yaml::Value, key: &str) -> (r: RawField<u64>)
    ensures
        yaml_view(*doc) matches YamlView::Fields(m) ==> r == spec_u64_field(m, key@),
        !(yaml_view(*doc) is Fields) ==> r is Missing,
{
    match yaml_get(doc, key) {
        Some(v) => match yaml_as_u64(v) {
            Some(n) => RawField::Given(n),
            None => RawField::Invalid,
        },
        None => RawField::Missing,
    }
}

/// What an ingredient mapping's `amount` field holds, in thousandths of a
/// unit, exactly as [`spec_amount_field`] describes.
fn extract_amount(v: &serde_yaml::Value) -> (r: RawField<u64>)
    ensures
        yaml_view(*v) matches YamlView::Fields(m) ==> r == spec_amount_field(m),
        !(yaml_view(*v) is Fields) ==> r is Missing,
{
    match yaml_get(v, "amount") {
        Some(av) => match yaml_as_u64(av) {
            Some(n) => {
                if n > u64::MAX / 1000 {
                    RawField::Invalid
                } else {
                    RawField::Given(n * 1000)
                }
            },
            None => match yaml_number_text(av) {
                Some(t) => match parse_amount(t.as_str()) {
                    Some(milli) => RawField::Given(milli),
                    None => RawField::Invalid,
                },
                None => RawField::Invalid,
            },
        },
        None => RawField::Missing,
    }
}

/// The metadata rules: `name` and `author` must be given strings,
/// `servings` a given positive count that fits the field, `cook_minutes` a
/// given count that fits; `url` and `prep_minutes` may be absent but not
/// ill-shaped. Accepted if and only if all of that holds, and the metadata
/// then carries exactly the given values, an absent option staying absent.
pub fn assemble_metadata(
    name: RawField<String>,
    author: RawField<String>,
    servings: RawField<u64>,
    url: RawField<String>,
    prep_minutes: RawField<u64>,
    cook_minutes: RawField<u64>,
) -> (r: Result<Metadata, SousError>)
    ensures
        r is Ok <==> {
            &&& name is Given
            &&& author is Given
            &&& servings matches RawField::Given(n) && 1 <= n <= u32::MAX
            &&& !(url is Invalid)
            &&& match prep_minutes {
                RawField::Given(p) => p <= u32::MAX,
                RawField::Missing => true,
                RawField::Invalid => false,
            }
            &&& cook_minutes matches RawField::Given(c) && c <= u32::MAX
        },
        r matches Ok(m) ==> {
            &&& name matches RawField::Given(s) && m.name == s
            &&& author matches RawField::Given(s) && m.author == s
            &&& servings matches RawField::Given(n) && m.servings == n as u32
            &&& m.url == match url {
                RawField::Given(u) => Some(u),
                _ => None::<String>,
            }
            &&& m.prep_minutes == match prep_minutes {
                RawField::Given(p) => Some(p as u32),
                _ => None::<u32>,
            }
            &&& cook_minutes matches RawField::Given(c) && m.cook_minutes == c as u32
        },
        r matches Err(e) ==> e is YamlError,
{
    let name = match name {
        RawField::Given(s) => s,
        _ => {
            return Err(field_error("name"));
        },
    };
    let author = match author {
        RawField::Given(s) => s,
        _ => {
            return Err(field_error("author"));
        },
    };
    let servings_raw: Option<u64> = match servings {
        RawField::Given(n) => Some(n),
        _ => None,
    };
    let servings = match check_servings(servings_raw) {
        Ok(s) => s,
        Err(e) => {
            return Err(e);
        },
    };
    let url = match url {
        RawField::Given(u) => Some(u),
        RawField::Missing => None,
        RawField::Invalid => {
            return Err(field_error("url"));
        },
    };
    let prep_minutes = match prep_minutes {
        RawField::Given(p) => {
            if p > u32::MAX as u64 {
                return Err(field_error("prep_minutes"));
            }
            Some(p as u32)
        },
        RawField::Missing => None,
        RawField::Invalid => {
            return Err(field_error("prep_minutes"));
        },
    };
    let cook_minutes = match cook_minutes {
        RawField::Given(c) => {
            if c > u32::MAX as u64 {
                return Err(field_error("cook_minutes"));
            }
            c as u32
        },
        _ => {
            return Err(field_error("cook_minutes"));
        },
    };
    Ok(Metadata { name, author, servings, url, prep_minutes, cook_minutes })
}

/// The steps rule: every entry of the sequence must be a string. Accepted
/// if and only if that holds, and the steps are then exactly the given
/// strings, in the document's order, duplicates and all.
pub fn assemble_steps(raw: &Vec<Option<String>>) -> (r: Result<Vec<String>, SousError>)
    ensures
        r is Ok <==> (forall|i: int| #![trigger raw@[i]] 0 <= i < raw@.len() ==> raw@[i] is Some),
        r matches Ok(steps) ==> steps@.len() == raw@.len() && (forall|i: int|
            #![trigger raw@[i]]
            0 <= i < raw@.len() ==> (raw@[i] matches Some(s) && steps@[i] == s)),
        r matches Err(e) ==> e is YamlError,
{
    let mut steps: Vec<String> = Vec::new();
    let mut i: usize = 0;
    while i < raw.len()
        invariant
            i <= raw@.len(),
            steps@.len() == i,
            forall|t: int| #![trigger raw@[t]] 0 <= t < i ==> (raw@[t] matches Some(s) && steps@[t]
                == s),
        decreases raw@.len() - i,
    {
        match &raw[i] {
            Some(s) => steps.push(s.clone()),
            None => {
                return Err(field_error("steps"));
            },
        }
        i = i + 1;
    }
    Ok(steps)
}

/// The rule for one ingredient: its `name` must be a given string, its
/// `amount` and `unit` may be absent but not ill-shaped. Accepted if and
/// only if that holds, and the ingredient then carries exactly the given
/// values, an absent option staying absent.
pub fn assemble_ingredient(
    name: &RawField<String>,
    amount: &RawField<u64>,
    unit: &RawField<String>,
) -> (r: Result<Ingredient, SousError>)
    ensures
        r is Ok <==> (name is Given && !(amount is Invalid) && !(unit is Invalid)),
        r matches Ok(ing) ==> {
            &&& name matches RawField::Given(s) && ing.name == s
            &&& ing.amount == match *amount {
                RawField::Given(a) => Some(a),
                _ => None::<u64>,
            }
            &&& ing.unit == match *unit {
                RawField::Given(u) => Some(u),
                _ => None::<String>,
            }
        },
        r matches Err(e) ==> e is YamlError,
{
    let name = match name {
        RawField::Given(s) => s.clone(),
        _ => {
            return Err(field_error("name"));
        },
    };
    let amount = match amount {
        RawField::Given(a) => Some(*a),
        RawField::Missing => None,
        RawField::Invalid => {
            return Err(field_error("amount"));
        },
    };
    let unit = match unit {
        RawField::Given(u) => Some(u.clone()),
        RawField::Missing => None,
        RawField::Invalid => {
            return Err(field_error("unit"));
        },
    };
    Ok(Ingredient { name, amount, unit })
}

/// The ingredients rule: every entry must satisfy [`assemble_ingredient`].
/// Accepted if and only if that holds, and the list then carries exactly
/// the assembled ingredients, in the document's order, duplicate names and
/// all.
pub fn assemble_ingredients(
    raw: &Vec<(RawField<String>, RawField<u64>, RawField<String>)>,
) -> (r: Result<Vec<Ingredient>, SousError>)
    ensures
        r is Ok <==> (forall|i: int|
            #![trigger raw@[i]]
            0 <= i < raw@.len() ==> (raw@[i].0 is Given && !(raw@[i].1 is Invalid) && !(
            raw@[i].2 is Invalid))),
        r matches Ok(ings) ==> ings@.len() == raw@.len() && (forall|i: int|
            #![trigger raw@[i]]
            0 <= i < raw@.len() ==> {
                &&& raw@[i].0 matches RawField::Given(s) && ings@[i].name == s
                &&& ings@[i].amount == match raw@[i].1 {
                    RawField::Given(a) => Some(a),
                    _ => None::<u64>,
                }
                &&& ings@[i].unit == match raw@[i].2 {
                    RawField::Given(u) => Some(u),
                    _ => None::<String>,
                }
            }),
        r matches Err(e) ==> e is YamlError,
{
    let mut ings: Vec<Ingredient> = Vec::new();
    let mut i: usize = 0;
    while i < raw.len()
        invariant
            i <= raw@.len(),
            ings@.len() == i,
            forall|t: int| #![trigger raw@[t]] 0 <= t < i ==> raw@[t].0 is Given && !(
                raw@[t].1 is Invalid) && !(raw@[t].2 is Invalid),
            forall|t: int| #![trigger raw@[t]] 0 <= t < i ==> {
                &&& raw@[t].0 matches RawField::Given(s) && ings@[t].name == s
                &&& ings@[t].amount == match raw@[t].1 {
                    RawField::Given(a) => Some(a),
                    _ => None::<u64>,
                }
                &&& ings@[t].unit == match raw@[t].2 {
                    RawField::Given(u) => Some(u),
                    _ => None::<String>,
                }
            },
        decreases raw@.len() - i,
    {
        let item = &raw[i];
        match assemble_ingredient(&item.0, &item.1, &item.2) {
            Ok(ing) => ings.push(ing),
            Err(e) => {
                return Err(e);
            },
        }
        i = i + 1;
    }
    Ok(ings)
}

/// The serving-count rule: a recipe must state how many servings it yields,
/// the count must be positive — a count of zero would leave the
/// serving-rescale ratio of rendering undefined — and it must fit the field.
/// Accepted if and only if those three conditions hold.
pub fn check_servings(raw: Option<u64>) -> (r: Result<u32, SousError>)
    ensures
        r is Ok <==> (raw matches Some(n) && 1 <= n <= u32::MAX),
        r matches Ok(s) ==> Some(s as u64) == raw,
        r matches Err(e) ==> e is YamlError,
{
    match raw {
        Some(n) => {
            if n == 0 || n > u32::MAX as u64 {
                Err(field_error("servings"))
            } else {
                Ok(n as u32)
            }
        },
        None => Err(field_error("servings")),
    }
}

/// The parse error reported for a field that is missing or of the wrong
/// shape.
fn field_error(key: &str) -> (e: SousError)
    ensures
        e is YamlError,
        e.spec_message() == "missing or invalid field: "@ + key@,
{
    let mut m = String::from_str("missing or invalid field: ");
    m.append(key);
    SousError::YamlError(m)
}

} // verus!
