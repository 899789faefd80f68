//! Small helpers shared with the kernel glue.

use vstd::prelude::*;
use vstd::string::StringSliceAdditionalSpecFns;

verus! {

/// Turns a string into the NUL-terminated byte form C code expects:
/// its bytes followed by one zero byte. A string with an interior NUL
/// cannot be represented and yields nothing.
pub fn to_c_string(s: &str) -> (r: Option<Vec<u8>>)
    ensures
        r is Some <==> (forall|i: int| 0 <= i < s.spec_bytes().len() ==> s.spec_bytes()[i] != 0),
        r is Some ==> r->0@ == s.spec_bytes().push(0),
{
    let bytes = s.as_bytes();
    let mut v: Vec<u8> = Vec::new();
    let mut i: usize = 0;
    while i < bytes.len()
        invariant
            i <= bytes.len(),
            bytes@ == s.spec_bytes(),
            v@ == s.spec_bytes().take(i as int),
            forall|j: int| 0 <= j < i ==> s.spec_bytes()[j] != 0,
        decreases bytes.len() - i,
    {
        let b = bytes[i];
        if b == 0 {
            return None;
        }
        v.push(b);
        proof {
            assert(v@ =~= s.spec_bytes().take(i + 1));
        }
        i = i + 1;
    }
    v.push(0);
    proof {
        assert(s.spec_bytes().take(bytes@.len() as int) =~= s.spec_bytes());
    }
    Some(v)
}

} // verus!
