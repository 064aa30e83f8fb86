//! The keyboard state that the windowing subsystem reports.
use vstd::prelude::*;

verus! {

/// Copies the pressed keys that the subsystem reported into an owned
/// snapshot. `reported_len` is the length the subsystem gave and is
/// authoritative: exactly that many keycodes are copied, from the front of
/// `keys`, and nothing past them is read.
pub fn copy_current_keys(keys: &[u32], reported_len: usize) -> (r: Vec<u32>)
    requires
        reported_len <= keys@.len(),
    ensures
        r@.len() == reported_len,
        r@ == keys@.subrange(0, reported_len as int),
{
    let mut result: Vec<u32> = Vec::with_capacity(reported_len);
    let mut index: usize = 0;
    while index < reported_len
        invariant
            reported_len <= keys@.len(),
            index <= reported_len,
            result@ == keys@.subrange(0, index as int),
        decreases reported_len - index,
    {
        result.push(keys[index]);
        index = index + 1;
        assert(result@ =~= keys@.subrange(0, index as int));
    }
    result
}

} // verus!
