//! Private supertrait that closes the set of element representations.
//!
//! The module is not exported, so no code outside this crate can implement
//! [`Sealed`], and therefore none can implement the public capability trait
//! that requires it. The set of element representations stays exactly the
//! three declared in this crate.

use vstd::prelude::*;

verus! {

pub trait Sealed {

}

} // verus!
