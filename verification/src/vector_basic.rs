use vstd::prelude::*;

verus! {

/// What `get_val` returns: the element at `idx` when it exists, otherwise the
/// first element, otherwise `0`.
pub open spec fn get_val_spec(v: Seq<i32>, idx: int) -> i32 {
    if 0 <= idx < v.len() {
        v[idx]
    } else if v.len() > 0 {
        v[0]
    } else {
        0
    }
}

/// Reads `v[idx]`, falling back to the first element when `idx` is out of
/// range, and to `0` when the vector is empty.
pub fn get_val(v: &Vec<i32>, idx: usize) -> (r: i32)
    ensures
        r == get_val_spec(v@, idx as int),
        idx < v@.len() ==> r == v@[idx as int],
        idx >= v@.len() && v@.len() > 0 ==> r == v@[0],
        v@.len() == 0 ==> r == 0,
{
    if idx < v.len() {
        v[idx]
    } else if v.len() > 0 {
        v[0]
    } else {
        0
    }
}

/// The fallback rule: an index inside the vector reads that element; any index past
/// the end reads the first element, whatever its distance from the end; an empty
/// vector reads `0` at every index.
pub proof fn lemma_get_val_fallback(v: Seq<i32>, idx: int, other: int)
    requires
        0 <= idx,
        0 <= other,
    ensures
        idx < v.len() ==> get_val_spec(v, idx) == v[idx],
        v.len() > 0 && idx >= v.len() ==> get_val_spec(v, idx) == v[0],
        v.len() > 0 && idx >= v.len() && other >= v.len() ==> get_val_spec(v, idx)
            == get_val_spec(v, other),
        v.len() == 0 ==> get_val_spec(v, idx) == 0,
{
}

} // verus!
