use vstd::prelude::*;
use vstd::string::*;

verus! {

/// Whether a byte sequence holds a NUL byte.
pub open spec fn has_nul(b: Seq<u8>) -> bool {
    exists|i: int| 0 <= i < b.len() && b[i] == 0
}

/// The NUL-terminated form of `s`, as the native API takes text, or `None`
/// when `s` itself holds a NUL byte.
pub fn to_c_bytes(s: &str) -> (r: Option<Vec<u8>>)
    ensures
        r is None <==> has_nul(s.spec_bytes()),
        r matches Some(v) ==> v@ == s.spec_bytes().push(0u8),
{
    let mut bytes = s.as_bytes_vec();
    let n = bytes.len();
    let mut i: usize = 0;
    while i < n
        invariant
            n == bytes@.len(),
            bytes@ == s.spec_bytes(),
            i <= n,
            forall|j: int| 0 <= j < i ==> bytes@[j] != 0,
        decreases n - i,
    {
        if bytes[i] == 0 {
            return None;
        }
        i = i + 1;
    }
    bytes.push(0u8);
    Some(bytes)
}

} // verus!
