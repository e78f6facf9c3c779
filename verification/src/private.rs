//! The sealed supertrait behind [`crate::Variable`].

use vstd::prelude::*;

verus! {

/// Anything that carries the id of a reflected type; the supertrait is
/// private so that only the crate's own variable kinds can implement
/// [`crate::Variable`].
pub trait Variable {
    /// The type id the variable refers to.
    spec fn spec_type_id(&self) -> u32;

    /// Returns the type id the variable refers to.
    fn get_type_id(&self) -> (r: u32)
        ensures
            r == self.spec_type_id(),
    ;
}

} // verus!
