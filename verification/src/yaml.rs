//! Trusted bindings to the YAML parser.
//!
//! The YAML grammar itself is the parser crate's business. What a parsed
//! node holds is modelled by [`YamlView`], and each accessor's contract
//! says what it returns in terms of that view; the recipe-level rules on
//! those values are verified in [`crate::recipe`]. Parsing and every
//! accessor are functions of their arguments alone, so the document's view
//! is named as a function of the text ([`yaml_doc`]).

use vstd::prelude::*;

verus! {

/// serde_yaml's generic value tree; opaque to the verifier.
#[verifier::external_type_specification]
#[verifier::external_body]
pub struct ExYamlValue(serde_yaml::Value);

/// The shape of a parsed node, as the accessors read it: every accessor
/// looks through tags, so a tag never appears in the view.
pub enum YamlView {
    /// Null or a boolean: nothing the recipe schema reads.
    Scalar,
    /// A number: its value when it is a non-negative integer that fits the
    /// word, and its decimal text.
    Num(Option<u64>, Seq<char>),
    /// A string.
    Text(Seq<char>),
    /// A sequence.
    List(Seq<YamlView>),
    /// A mapping: its entries under plain string keys, the only entries
    /// that field lookup reaches.
    Fields(Map<Seq<char>, YamlView>),
}

/// What a parsed node holds.
pub uninterp spec fn yaml_view(v: serde_yaml::Value) -> YamlView;

/// The entry a field lookup finds in a node of the given view.
pub open spec fn spec_field_of(v: YamlView, key: Seq<char>) -> Option<YamlView> {
    match v {
        YamlView::Fields(m) => if m.contains_key(key) {
            Some(m[key])
        } else {
            None
        },
        _ => None,
    }
}

/// Whether the text is a well-formed YAML document the parser accepts.
pub uninterp spec fn yaml_wf(content: Seq<char>) -> bool;

/// The view of the node a well-formed document parses to. Parsing is a
/// function of the text alone.
pub uninterp spec fn yaml_doc(content: Seq<char>) -> YamlView;

/// Relies on serde_yaml::from_str: parses a YAML document into a value
/// tree, deterministically in the text, or reports in text why the document
/// is not well-formed YAML.
#[verifier::external_body]
pub(crate) fn yaml_parse(content: &str) -> (r: Result<serde_yaml::Value, String>)
    ensures
        r is Ok <==> yaml_wf(content@),
        r matches Ok(v) ==> yaml_view(v) == yaml_doc(content@),
{
    match serde_yaml::from_str::<serde_yaml::Value>(content) {
        Ok(v) => Ok(v),
        Err(e) => Err(e.to_string()),
    }
}

/// Relies on serde_yaml::Value::get: looks up a string key in a mapping,
/// behind tags; exactly the mapping's plain-string-keyed entries are found.
#[verifier::external_body]
pub(crate) fn yaml_get<'a>(v: &'a serde_yaml::Value, key: &str) -> (r: Option<
    &'a serde_yaml::Value,
>)
    ensures
        r matches Some(f) ==> spec_field_of(yaml_view(*v), key@) == Some(yaml_view(*f)),
        r is None ==> spec_field_of(yaml_view(*v), key@) is None,
{
    v.get(key)
}

/// Relies on serde_yaml::Value::as_str: the string a value holds, behind
/// tags, exactly when it is a string.
#[verifier::external_body]
pub(crate) fn yaml_as_string(v: &serde_yaml::Value) -> (r: Option<String>)
    ensures
        r matches Some(s) ==> yaml_view(*v) == YamlView::Text(s@),
        r is None ==> !(yaml_view(*v) is Text),
{
    v.as_str().map(str::to_string)
}

/// Relies on serde_yaml::Value::as_u64: the integer a value holds, behind
/// tags, exactly when it is a non-negative integer that fits the word.
#[verifier::external_body]
pub(crate) fn yaml_as_u64(v: &serde_yaml::Value) -> (r: Option<u64>)
    ensures
        r matches Some(n) ==> (yaml_view(*v) matches YamlView::Num(u, t) && u == Some(n)),
        r is None ==> (match yaml_view(*v) {
            YamlView::Num(u, t) => u is None,
            _ => true,
        }),
{
    v.as_u64()
}

/// Relies on serde_yaml::Value::as_sequence: the list of values a value
/// holds, behind tags, exactly when it is a sequence.
#[verifier::external_body]
pub(crate) fn yaml_as_sequence<'a>(v: &'a serde_yaml::Value) -> (r: Option<
    &'a Vec<serde_yaml::Value>,
>)
    ensures
        r matches Some(l) ==> (yaml_view(*v) matches YamlView::List(s) && l@.map_values(
            |x: serde_yaml::Value| yaml_view(x),
        ) == s),
        r is None ==> !(yaml_view(*v) is List),
{
    v.as_sequence()
}

/// Relies on serde_yaml::Value::Number and Number's Display: the decimal
/// text of a numeric value, behind tags, exactly when the value is a
/// number. The tag loop mirrors what every other accessor does inside the
/// parser crate.
#[verifier::external_body]
pub(crate) fn yaml_number_text(v: &serde_yaml::Value) -> (r: Option<String>)
    ensures
        r matches Some(t) ==> (yaml_view(*v) matches YamlView::Num(u, txt) && t@ == txt),
        r is None ==> !(yaml_view(*v) is Num),
{
    let mut cur = v;
    while let serde_yaml::Value::Tagged(t) = cur {
        cur = &t.value;
    }
    match cur {
        serde_yaml::Value::Number(n) => Some(n.to_string()),
        _ => None,
    }
}

} // verus!
