//! The seal on `DropPtr`: a trait that no other crate can name.
use vstd::prelude::*;

verus! {

pub trait Sealed {

}

} // verus!
