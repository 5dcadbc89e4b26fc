//! Types for representing ingredients.

use vstd::prelude::*;

use crate::numtext::push_amount;
use crate::numtext::spec_amount;

verus! {

/// An ingredient used in a culinary recipe.
#[derive(Clone, Debug, PartialEq)]
pub struct Ingredient {
    /// The ingredient's display name.
    pub name: String,
    /// Optional amount of the ingredient to be used, in thousandths of a
    /// unit; absence means an unspecified quantity.
    pub amount: Option<u64>,
    /// Optional unit description.
    pub unit: Option<String>,
}

/// The text that `Ingredient::to_string` produces: the amount and the unit,
/// each followed by a space when present, then the name.
pub open spec fn spec_ingredient_text(i: Ingredient) -> Seq<char> {
    let amount_part = match i.amount {
        Some(a) => spec_amount(a as nat) + " "@,
        None => Seq::<char>::empty(),
    };
    let unit_part = match i.unit {
        Some(u) => u@ + " "@,
        None => Seq::<char>::empty(),
    };
    amount_part + unit_part + i.name@
}

impl Ingredient {
    /// Create a new, empty ingredient.
    pub fn new() -> (r: Ingredient)
        ensures
            r.name@ == Seq::<char>::empty(),
            r.amount is None,
            r.unit is None,
    {
        Ingredient { name: String::new(), amount: None, unit: None }
    }

    /// Generate a human-readable [String] representation of the ingredient.
    pub fn to_string(&self) -> (r: String)
        ensures
            r@ == spec_ingredient_text(*self),
    {
        let mut ret = String::new();
        match &self.amount {
            Some(a) => {
                push_amount(&mut ret, *a as u128);
                ret.append(" ");
            },
            None => {},
        }
        match &self.unit {
            Some(u) => {
                ret.append(u.as_str());
                ret.append(" ");
            },
            None => {},
        }
        ret.append(self.name.as_str());
        proof {
            assert(ret@ =~= spec_ingredient_text(*self));
        }
        ret
    }
}

} // verus!
