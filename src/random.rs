//! The random number generator behind `Cxnn`.

use vstd::prelude::*;

verus! {

/// Relies on `rand::random`: it returns a value drawn from the thread-local
/// generator, about which nothing is promised. (It panics only when the
/// operating system cannot seed that generator, which no argument decides.)
pub assume_specification<T>[ rand::random::<T> ]() -> (r: T)
    where
        rand::distributions::Standard: rand::distributions::Distribution<T>,
;

} // verus!
