//! Marshaling of resource-locator strings.
//!
//! Entity constructors that name a stream take a protocol tag, a path and an
//! options string. All three are marshaled into null-terminated byte buffers
//! before crossing the call boundary; a string with an embedded null byte
//! cannot be represented there and is rejected before the call.

use vstd::prelude::*;
use crate::engine::is_c_string;
use crate::props::Protocol;

verus! {

/// The string holds a null byte, so it cannot cross the call boundary.
pub open spec fn has_interior_nul(s: Seq<u8>) -> bool {
    exists|i: int| 0 <= i < s.len() && s[i] == 0
}

/// Marshals one string into a null-terminated buffer, or rejects it for an
/// embedded null byte.
pub fn marshal(bytes: &[u8]) -> (r: Option<Vec<u8>>)
    ensures
        match r {
            Some(v) => !has_interior_nul(bytes@) && v@ == bytes@.push(0) && is_c_string(v@),
            None => has_interior_nul(bytes@),
        },
{
    let n = bytes.len();
    let mut v: Vec<u8> = Vec::new();
    let mut i: usize = 0;
    while i < n
        invariant
            0 <= i <= n,
            n == bytes@.len(),
            v@ == bytes@.subrange(0, i as int),
            forall|j: int| 0 <= j < i ==> bytes@[j] != 0,
        decreases n - i,
    {
        let b = bytes[i];
        if b == 0 {
            assert(bytes@[i as int] == 0);
            return None;
        }
        v.push(b);
        proof {
            assert(v@ =~= bytes@.subrange(0, i + 1));
        }
        i += 1;
    }
    proof {
        assert(v@ =~= bytes@);
    }
    v.push(0);
    proof {
        assert(v@ == bytes@.push(0));
        assert(is_c_string(v@));
    }
    Some(v)
}

/// The protocol tag, already marshaled into a null-terminated buffer. No
/// tag holds a null byte, so this cannot fail.
pub fn marshal_protocol(protocol: Protocol) -> (v: Vec<u8>)
    ensures
        is_c_string(v@),
{
    match protocol {
        Protocol::File => {
            let mut v: Vec<u8> = Vec::new();
            v.push('f' as u8);
            v.push('i' as u8);
            v.push('l' as u8);
            v.push('e' as u8);
            v.push(0);
            proof {
                assert(is_c_string(v@));
            }
            v
        },
    }
}

} // verus!
