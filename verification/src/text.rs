//! Small string utilities: appending onto an owned string and comparing
//! string slices by their characters.

use vstd::prelude::*;

verus! {

/// Relies on the standard library's `String::push_str`: it appends the given
/// slice's characters onto the end of the string.
pub assume_specification[ String::push_str ](s: &mut String, other: &str)
    ensures
        final(s)@ == old(s)@ + other@,
;

/// Whether two string slices hold the same characters.
pub fn str_eq(a: &str, b: &str) -> (r: bool)
    ensures
        r == (a@ == b@),
{
    let sa: String = a.to_owned();
    let sb: String = b.to_owned();
    sa == sb
}

} // verus!
