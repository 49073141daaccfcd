use vstd::prelude::*;
use vstd::string::StringSliceAdditionalSpecFns;
use vstd::utf8::encode_utf8_decode_utf8;

verus! {

/// Whether two texts hold the same characters.
pub fn text_eq(left: &str, right: &str) -> (same: bool)
    ensures
        same == (left@ == right@),
{
    let a = left.as_bytes();
    let b = right.as_bytes();
    proof {
        encode_utf8_decode_utf8(left@);
        encode_utf8_decode_utf8(right@);
    }
    if a.len() != b.len() {
        return false;
    }
    let mut index: usize = 0;
    while index < a.len()
        invariant
            index <= a.len(),
            a.len() == b.len(),
            a@ == left.spec_bytes(),
            b@ == right.spec_bytes(),
            a@.take(index as int) == b@.take(index as int),
        decreases a.len() - index,
    {
        if a[index] != b[index] {
            return false;
        }
        assert(a@.take(index + 1) == a@.take(index as int).push(a@[index as int]));
        assert(b@.take(index + 1) == b@.take(index as int).push(b@[index as int]));
        index += 1;
    }
    assert(a@.take(index as int) == a@);
    assert(b@.take(index as int) == b@);
    true
}

} // verus!
