//! Comparing owned strings with string literals.

use vstd::prelude::*;

verus! {

/// Whether `name` spells `literal`.
pub(crate) fn is_named(name: &String, literal: &str) -> (b: bool)
    ensures
        b == (name@ == literal@),
{
    let owned = String::from_str(literal);
    *name == owned
}

} // verus!
