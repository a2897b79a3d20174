//! Small string operations shared by the rest of the library.

use vstd::prelude::*;

verus! {

/// An element-for-element copy of a list of strings.
pub fn copy_strings(v: &Vec<String>) -> (r: Vec<String>)
    ensures
        r.deep_view() == v.deep_view(),
{
    let r = v.clone();
    proof {
        assert(r.deep_view() =~= v.deep_view());
    }
    r
}

/// A copy of an optional list of strings.
pub fn copy_opt_strings(v: &Option<Vec<String>>) -> (r: Option<Vec<String>>)
    ensures
        r.deep_view() == v.deep_view(),
{
    match v {
        Some(items) => Some(copy_strings(items)),
        None => None,
    }
}

/// Whether `items` holds a string equal to `s`.
pub fn contains_string(items: &Vec<String>, s: &String) -> (r: bool)
    ensures
        r == items.deep_view().contains(s@),
{
    let mut i: usize = 0;
    while i < items.len()
        invariant
            i <= items.len(),
            forall|j: int| 0 <= j < i ==> items.deep_view()[j] != s@,
        decreases items.len() - i,
    {
        if items[i].eq(s) {
            proof {
                assert(items.deep_view()[i as int] == s@);
            }
            return true;
        }
        i = i + 1;
    }
    proof {
        if items.deep_view().contains(s@) {
            let k = choose|k: int| 0 <= k < items.deep_view().len() && items.deep_view()[k] == s@;
            assert(items.deep_view()[k] != s@);
        }
    }
    false
}

} // verus!
