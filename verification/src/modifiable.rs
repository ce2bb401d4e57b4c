use vstd::prelude::*;

verus! {

/// Something that can tell whether it has been modified.
///
/// What counts as modified is up to the type that implements the trait: the
/// trait itself promises nothing about the answer.
pub trait Modifiable {
    /// Returns `true` if the object was modified.
    fn is_modified(&self) -> bool;
}

} // verus!
