//! Types for managing collections of recipes.

use vstd::prelude::*;

verus! {

/// Whether `s` names a recipe file: it ends in the `.yml` extension with at
/// least one character of stem before it.
pub open spec fn spec_is_yaml_name(s: Seq<char>) -> bool {
    &&& s.len() >= 5
    &&& s[s.len() - 4] == '.'
    &&& s[s.len() - 3] == 'y'
    &&& s[s.len() - 2] == 'm'
    &&& s[s.len() - 1] == 'l'
}

/// Whether `name` carries the `.yml` extension, as [`spec_is_yaml_name`]
/// describes.
pub fn is_yaml_name(name: &str) -> (r: bool)
    ensures
        r == spec_is_yaml_name(name@),
{
    let n = name.unicode_len();
    if n < 5 {
        return false;
    }
    let c1 = name.get_char(n - 4);
    let c2 = name.get_char(n - 3);
    let c3 = name.get_char(n - 2);
    let c4 = name.get_char(n - 1);
    c1 == '.' && c2 == 'y' && c3 == 'm' && c4 == 'l'
}

/// Directory of recipe files.
///
/// Stores both the directory's path on the filesystem and the list of
/// recipe file names found in it.
pub struct Cookbook {
    path: String,
    recipes: Vec<String>,
}

impl Cookbook {
    /// The directory path the cookbook was assembled from.
    pub closed spec fn spec_path(&self) -> Seq<char> {
        self.path@
    }

    /// The recipe file names the cookbook holds.
    pub closed spec fn spec_recipes(&self) -> Seq<String> {
        self.recipes@
    }

    /// Assemble a cookbook from a directory path and the file names found
    /// in that directory: exactly the names that carry the `.yml` extension
    /// are kept, in their given order.
    pub fn from_listing(path: String, entries: Vec<String>) -> (r: Cookbook)
        ensures
            r.spec_path() == path@,
            r.spec_recipes() == entries@.filter(|s: String| spec_is_yaml_name(s@)),
    {
        let mut recipes: Vec<String> = Vec::new();
        let mut i: usize = 0;
        while i < entries.len()
            invariant
                i <= entries.len(),
                recipes@ == entries@.take(i as int).filter(|s: String| spec_is_yaml_name(s@)),
            decreases entries.len() - i,
        {
            let keep = is_yaml_name(entries[i].as_str());
            proof {
                reveal(Seq::filter);
                assert(entries@.take(i as int + 1).drop_last() =~= entries@.take(i as int));
                assert(entries@.take(i as int + 1).last() == entries@[i as int]);
            }
            if keep {
                recipes.push(entries[i].clone());
            }
            i = i + 1;
        }
        proof {
            assert(entries@.take(entries@.len() as int) =~= entries@);
        }
        Cookbook { path, recipes }
    }

    /// Get a borrowed [Vec] of available recipe names.
    pub fn recipes(&self) -> (r: &Vec<String>)
        ensures
            r@ == self.spec_recipes(),
    {
        &self.recipes
    }

    /// The directory path the cookbook was assembled from.
    pub fn path(&self) -> (r: &String)
        ensures
            r@ == self.spec_path(),
    {
        &self.path
    }
}

} // verus!
