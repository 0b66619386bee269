//! Small operations on strings and lists of strings.

use vstd::prelude::*;
use crate::defaults::strings_view;

verus! {

broadcast use vstd::string::to_string_from_display_ensures_for_str;

/// Whether two texts hold the same characters.
pub fn same_text(left: &str, right: &str) -> (same: bool)
    ensures
        same == (left@ == right@),
{
    let left_owned: String = left.to_string();
    let right_owned: String = right.to_string();
    left_owned == right_owned
}

/// A copy of a list of strings.
pub fn copy_strings(strings: &Vec<String>) -> (copy: Vec<String>)
    ensures
        strings_view(copy@) == strings_view(strings@),
{
    let mut copy: Vec<String> = Vec::new();
    let mut i: usize = 0;
    while i < strings.len()
        invariant
            i <= strings.len(),
            copy.len() == i,
            forall|k: int| 0 <= k < i ==> (#[trigger] copy[k])@ == strings[k]@,
        decreases strings.len() - i,
    {
        copy.push(strings[i].clone());
        i += 1;
    }
    assert(strings_view(copy@) =~= strings_view(strings@));
    copy
}

} // verus!
