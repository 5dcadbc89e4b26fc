//! Types for recipe meta information.

use vstd::prelude::*;

verus! {

/// Container for recipe meta information.
#[derive(Clone, Debug, PartialEq)]
pub struct Metadata {
    /// Display name for the recipe.
    pub name: String,
    /// Original author of the recipe.
    pub author: String,
    /// Servings yielded by the recipe as written.
    pub servings: u32,
    /// Optional URL source of the recipe.
    pub url: Option<String>,
    /// Optional time in minutes estimated for prep.
    pub prep_minutes: Option<u32>,
    /// Time in minutes estimated for cooking.
    pub cook_minutes: u32,
}

impl Metadata {
    /// Create new, empty metadata.
    pub fn new() -> (r: Metadata)
        ensures
            r.name@ == Seq::<char>::empty(),
            r.author@ == Seq::<char>::empty(),
            r.servings == 0,
            r.url is None,
            r.prep_minutes is None,
            r.cook_minutes == 0,
    {
        Metadata {
            name: String::new(),
            author: String::new(),
            servings: 0,
            url: None,
            prep_minutes: None,
            cook_minutes: 0,
        }
    }

    /// A one-line human-readable description: the name, then the author.
    pub fn to_string(&self) -> (r: String)
        ensures
            r@ == self.name@ + " by "@ + self.author@,
    {
        let mut ret = self.name.clone();
        ret.append(" by ");
        ret.append(self.author.as_str());
        proof {
            assert(ret@ =~= self.name@ + " by "@ + self.author@);
        }
        ret
    }
}

} // verus!
