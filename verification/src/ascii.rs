//! Byte-level ASCII helpers used by the configuration parser: exact and
//! case-insensitive comparison of UTF-8 byte strings.

use vstd::prelude::*;

verus! {

/// The ASCII upper-case image of one byte: `a`..`z` fold to `A`..`Z`,
/// every other byte is unchanged.
pub open spec fn upper_byte(b: u8) -> u8 {
    if 97 <= b && b <= 122 {
        (b - 32) as u8
    } else {
        b
    }
}

/// A byte string mapped to ASCII upper case.
pub open spec fn upper_bytes(s: Seq<u8>) -> Seq<u8> {
    s.map_values(|b: u8| upper_byte(b))
}

/// Two byte strings are equal up to ASCII case.
pub open spec fn ieq(a: Seq<u8>, b: Seq<u8>) -> bool {
    upper_bytes(a) == upper_bytes(b)
}

/// ASCII upper-case of one byte, as executable code.
fn upper_byte_x(b: u8) -> (r: u8)
    ensures
        r == upper_byte(b),
{
    if 97 <= b && b <= 122 {
        b - 32
    } else {
        b
    }
}

/// Exact equality of two byte slices.
pub fn bytes_eq(a: &[u8], b: &[u8]) -> (r: bool)
    ensures
        r == (a@ == b@),
{
    if a.len() != b.len() {
        proof {
            assert(a@.len() != b@.len());
        }
        return false;
    }
    let n = a.len();
    let mut i: usize = 0;
    while i < n
        invariant
            n == a@.len(),
            n == b@.len(),
            i <= n,
            forall|j: int| 0 <= j < i ==> a@[j] == b@[j],
        decreases n - i,
    {
        if a[i] != b[i] {
            return false;
        }
        i += 1;
    }
    proof {
        assert(a@ =~= b@);
    }
    true
}

/// Equality of two byte slices up to ASCII case.
pub fn eq_ignore_ascii_case(a: &[u8], b: &[u8]) -> (r: bool)
    ensures
        r == ieq(a@, b@),
{
    if a.len() != b.len() {
        proof {
            assert(upper_bytes(a@).len() != upper_bytes(b@).len());
        }
        return false;
    }
    let n = a.len();
    let mut i: usize = 0;
    while i < n
        invariant
            n == a@.len(),
            n == b@.len(),
            i <= n,
            forall|j: int| 0 <= j < i ==> upper_byte(a@[j]) == upper_byte(b@[j]),
        decreases n - i,
    {
        if upper_byte_x(a[i]) != upper_byte_x(b[i]) {
            proof {
                assert(upper_bytes(a@)[i as int] != upper_bytes(b@)[i as int]);
            }
            return false;
        }
        i += 1;
    }
    proof {
        assert(upper_bytes(a@) =~= upper_bytes(b@));
    }
    true
}

} // verus!
