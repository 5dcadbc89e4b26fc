//! Types representing errors that can occur within Sous.

use vstd::prelude::*;

verus! {

/// Errors that can occur within Sous.
///
/// Each variant carries a human-readable description of what went wrong.
#[derive(Clone, Debug)]
pub enum SousError {
    /// An error that occurs when parsing YAML.
    YamlError(String),
    /// An error involving file I/O.
    FileError(String),
    /// An error reading or rendering a template.
    TemplateError(String),
    /// An unknown internal error, likely indicates a bug.
    Unknown,
}

impl SousError {
    /// A human-readable description of the error.
    pub fn message(&self) -> (r: String)
        ensures
            r@ == self.spec_message(),
    {
        match self {
            SousError::YamlError(m) => m.clone(),
            SousError::FileError(m) => m.clone(),
            SousError::TemplateError(m) => m.clone(),
            SousError::Unknown => String::from_str("unknown internal error"),
        }
    }

    /// The description that `message` returns.
    pub open spec fn spec_message(&self) -> Seq<char> {
        match self {
            SousError::YamlError(m) => m@,
            SousError::FileError(m) => m@,
            SousError::TemplateError(m) => m@,
            SousError::Unknown => "unknown internal error"@,
        }
    }
}

} // verus!
