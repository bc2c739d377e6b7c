use vstd::prelude::*;

pub mod credential;
pub mod store;
pub mod card;
pub mod machine;
pub mod protocol;
pub mod rng;
pub mod error;

verus! {

/// Compares two byte sequences for exact, byte-for-byte equality.
pub fn bytes_eq(a: &[u8], b: &[u8]) -> (r: bool)
    ensures
        r == (a@ == b@),
{
    if a.len() != b.len() {
        return false;
    }
    let mut i: usize = 0;
    while i < a.len()
        invariant
            0 <= i <= a@.len(),
            a@.len() == b@.len(),
            forall|k: int| 0 <= k < i ==> a@[k] == b@[k],
        decreases a@.len() - i,
    {
        if a[i] != b[i] {
            return false;
        }
        i += 1;
    }
    proof {
        assert(a@ =~= b@);
    }
    true
}

/// The ASCII byte of one uppercase hexadecimal digit.
pub open spec fn hex_digit(n: u8) -> u8
    recommends
        n < 16,
{
    if n < 10 {
        (0x30 + n) as u8
    } else {
        (0x37 + n) as u8
    }
}

/// The uppercase hexadecimal rendering of a byte sequence, as ASCII bytes:
/// two digits per byte, high nibble first.
pub open spec fn hex_of(bytes: Seq<u8>) -> Seq<u8> {
    Seq::new(
        2 * bytes.len(),
        |i: int|
            if i % 2 == 0 {
                hex_digit(bytes[i / 2] >> 4)
            } else {
                hex_digit(bytes[i / 2] & 0x0F)
            },
    )
}

/// Renders bytes as uppercase hexadecimal ASCII, two digits per byte (how
/// diagnostic listings show tag identifiers and payloads).
pub fn hex_upper(v: &[u8]) -> (r: Vec<u8>)
    ensures
        r@ == hex_of(v@),
{
    let mut r: Vec<u8> = Vec::new();
    let mut i: usize = 0;
    while i < v.len()
        invariant
            0 <= i <= v@.len(),
            r@.len() == 2 * i,
            forall|k: int|
                0 <= k < i ==> r@[2 * k] == hex_digit(#[trigger] v@[k] >> 4) && r@[2 * k + 1]
                    == hex_digit(v@[k] & 0x0F),
        decreases v@.len() - i,
    {
        let b = v[i];
        proof {
            assert(b >> 4 < 16 && b & 0x0F < 16) by (bit_vector);
        }
        let hi = b >> 4;
        let lo = b & 0x0F;
        if hi < 10 {
            r.push(0x30 + hi);
        } else {
            r.push(0x37 + hi);
        }
        if lo < 10 {
            r.push(0x30 + lo);
        } else {
            r.push(0x37 + lo);
        }
        i += 1;
    }
    proof {
        assert forall|m: int| 0 <= m < 2 * v@.len() implies r@[m] == hex_of(v@)[m] by {
            if m % 2 == 0 {
                assert(m == 2 * (m / 2));
            } else {
                assert(m == 2 * (m / 2) + 1);
            }
        }
        assert(r@ =~= hex_of(v@));
    }
    r
}

} // verus!
