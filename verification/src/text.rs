//! What the library needs of `String` beyond what vstd specifies.

use vstd::prelude::*;

verus! {

/// `String::push_str`: appends `other` to the string.
pub assume_specification[ String::push_str ](s: &mut String, other: &str)
    ensures
        final(s)@ == old(s)@ + other@,
;

} // verus!
