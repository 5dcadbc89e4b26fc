//! Library for handling culinary recipes.
//!
//! This crate provides structs representing the components of a culinary
//! recipe, together with renderers that turn a recipe into text: a built-in
//! fixed-layout Markdown renderer and a template-driven renderer.
//!
//! Ingredient amounts are kept as whole thousandths of a unit, so that the
//! serving-rescale arithmetic is exact and its behaviour can be stated
//! precisely.

mod cookbook;
mod error;
mod ingredient;
mod metadata;
mod numtext;
mod recipe;
mod render;
mod template;
mod yaml;

pub use crate::cookbook::is_yaml_name;
pub use crate::cookbook::spec_is_yaml_name;
pub use crate::cookbook::Cookbook;
pub use crate::error::SousError;
pub use crate::ingredient::spec_ingredient_text;
pub use crate::ingredient::Ingredient;
pub use crate::metadata::Metadata;
pub use crate::numtext::parse_amount;
pub use crate::numtext::spec_all_digits;
pub use crate::numtext::spec_amount;
pub use crate::numtext::spec_amount_split;
pub use crate::numtext::spec_dec;
pub use crate::numtext::spec_digit;
pub use crate::numtext::spec_digit_val;
pub use crate::numtext::spec_digits_val;
pub use crate::numtext::spec_frac;
pub use crate::numtext::spec_frac_milli;
pub use crate::numtext::spec_is_digit;
pub use crate::numtext::spec_parse_amount;
pub use crate::recipe::assemble_ingredient;
pub use crate::recipe::assemble_ingredients;
pub use crate::recipe::assemble_metadata;
pub use crate::recipe::assemble_steps;
pub use crate::recipe::check_servings;
pub use crate::recipe::raw_text_view;
pub use crate::recipe::spec_amount_field;
pub use crate::recipe::spec_ingredient_matches;
pub use crate::recipe::spec_ingredient_ok;
pub use crate::recipe::spec_ingredients_match;
pub use crate::recipe::spec_ingredients_ok;
pub use crate::recipe::spec_metadata_matches;
pub use crate::recipe::spec_metadata_ok;
pub use crate::recipe::spec_raw_ingredient;
pub use crate::recipe::spec_recipe_matches;
pub use crate::recipe::spec_recipe_ok;
pub use crate::recipe::spec_steps_match;
pub use crate::recipe::spec_steps_ok;
pub use crate::recipe::spec_string_field;
pub use crate::recipe::spec_u64_field;
pub use crate::recipe::RawField;
pub use crate::recipe::Recipe;
pub use crate::render::lemma_header_style;
pub use crate::render::lemma_line_scaling_linear;
pub use crate::render::lemma_render_round_trip;
pub use crate::render::lemma_scale_identity;
pub use crate::render::lemma_scale_linear;
pub use crate::render::lemma_section_toggling;
pub use crate::render::scale_amount;
pub use crate::yaml::yaml_doc;
pub use crate::yaml::yaml_view;
pub use crate::yaml::yaml_wf;
pub use crate::yaml::YamlView;
pub use crate::render::spec_bullet;
pub use crate::render::spec_display_servings;
pub use crate::render::spec_header;
pub use crate::render::spec_ingredient_line;
pub use crate::render::spec_ingredient_lines;
pub use crate::render::spec_ingredients_block;
pub use crate::render::spec_markdown;
pub use crate::render::spec_meta_block;
pub use crate::render::spec_scaled;
pub use crate::render::spec_step_line;
pub use crate::render::spec_step_lines;
pub use crate::render::spec_steps_block;
pub use crate::render::spec_summary;
pub use crate::render::MarkdownRenderer;
pub use crate::render::Renderer;
pub use crate::template::json_view;
pub use crate::template::spec_amount_json;
pub use crate::template::spec_ingredient_json;
pub use crate::template::spec_opt_text_json;
pub use crate::template::spec_projection;
pub use crate::template::tera_compiles;
pub use crate::template::tera_expands_to;
pub use crate::template::tera_templates;
pub use crate::template::JsonView;
pub use crate::template::TemplateRenderer;
