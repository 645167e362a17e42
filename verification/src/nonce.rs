//! Identifiers of withdrawals: random bytes written in lowercase hexadecimal,
//! two digits for each byte, the high half first.

use crate::text::{digit_text, hex_digit, lemma_hex_digit_injective};
use vstd::prelude::*;

verus! {

/// Number of random bytes behind the identifier of a withdrawal.
pub const NONCE_BYTES: usize = 32;

/// The hexadecimal text of a byte string.
pub open spec fn hex_of(bytes: Seq<u8>) -> Seq<char> {
    Seq::new(
        2 * bytes.len(),
        |i: int|
            hex_digit(
                if i % 2 == 0 {
                    bytes[i / 2] as int / 16
                } else {
                    bytes[i / 2] as int % 16
                },
            ),
    )
}

/// The encoding loses nothing: byte strings with the same text are the same.
pub proof fn lemma_hex_injective(a: Seq<u8>, b: Seq<u8>)
    requires
        hex_of(a) == hex_of(b),
    ensures
        a == b,
{
    assert(hex_of(a).len() == 2 * a.len());
    assert(hex_of(b).len() == 2 * b.len());
    assert forall|k: int| 0 <= k < a.len() implies a[k] == b[k] by {
        let x = a[k] as int;
        let y = b[k] as int;
        assert(hex_of(a)[2 * k] == hex_digit(x / 16));
        assert(hex_of(b)[2 * k] == hex_digit(y / 16));
        assert(hex_of(a)[2 * k + 1] == hex_digit(x % 16));
        assert(hex_of(b)[2 * k + 1] == hex_digit(y % 16));
        lemma_hex_digit_injective(x / 16, y / 16);
        lemma_hex_digit_injective(x % 16, y % 16);
    }
    assert(a =~= b);
}

/// Writes `entropy` as an identifier.
pub fn mk_nonce(entropy: &[u8]) -> (id: String)
    ensures
        id@ == hex_of(entropy@),
{
    let mut id = String::new();
    let mut i: usize = 0;
    while i < entropy.len()
        invariant
            i <= entropy.len(),
            id@ == hex_of(entropy@.take(i as int)),
        decreases entropy.len() - i,
    {
        let byte = entropy[i];
        id.append(digit_text(byte / 16));
        id.append(digit_text(byte % 16));
        i = i + 1;
        assert(id@ =~= hex_of(entropy@.take(i as int)));
    }
    assert(entropy@.take(i as int) =~= entropy@);
    id
}

} // verus!
