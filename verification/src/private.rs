use vstd::prelude::*;

verus! {

/// The argument of the one method that seals a trait of this crate. The
/// module that holds it is private, so code outside the crate cannot name
/// the type, cannot write that method, and so cannot implement the trait.
pub enum Sealed {
    /// The only value. Nothing in the crate makes one.
    Token,
}

} // verus!
