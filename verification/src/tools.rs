//! Small conversions used when reading fixed-size name fields the API
//! fills as NUL-terminated byte arrays.

use vstd::prelude::*;

verus! {

/// The bytes of a NUL-terminated array up to, and excluding, the first
/// NUL; the whole array when no NUL occurs.  Decoding the result into
/// text is the caller's concern.
pub fn bytes_before_nul(raw: &Vec<u8>) -> (r: Vec<u8>)
    ensures
        r@.len() <= raw@.len(),
        forall|j: int| 0 <= j < r@.len() ==> #[trigger] r@[j] == raw@[j] && raw@[j] != 0,
        r@.len() < raw@.len() ==> raw@[r@.len() as int] == 0,
{
    let mut out: Vec<u8> = Vec::new();
    let mut i: usize = 0;
    while i < raw.len()
        invariant
            i <= raw@.len(),
            out@.len() == i,
            forall|j: int| 0 <= j < i ==> #[trigger] out@[j] == raw@[j] && raw@[j] != 0,
        decreases raw@.len() - i,
    {
        if raw[i] == 0 {
            return out;
        }
        out.push(raw[i]);
        i += 1;
    }
    out
}

} // verus!
