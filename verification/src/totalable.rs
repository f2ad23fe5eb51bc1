//! The capability of reporting a monetary total.
use vstd::prelude::*;

verus! {

/// Something that reports a monetary total, in hundredths of the currency
/// unit. Reading the total changes nothing and cannot fail.
pub trait Totalable {
    /// The total, as a mathematical integer.
    spec fn total_spec(&self) -> int;

    /// The total: exactly [`Totalable::total_spec`].
    fn total(&self) -> (total: i128)
        ensures
            total == self.total_spec(),
    ;
}

} // verus!
