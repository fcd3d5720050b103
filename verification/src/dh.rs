//! X25519 Diffie-Hellman key agreement over raw 32-byte strings.
//!
//! A private key is any 32 bytes; its public key is the agreement of those
//! bytes with the curve's base point. Two parties agree because scalar
//! multiplication commutes: each side's agreement of its own secret with the
//! other's public key lands on the same point.

use vstd::prelude::*;

verus! {

/// Bytes in an X25519 public or private key.
pub const DH_KEY_LEN: usize = 32;

/// The X25519 function: the 32-byte agreement of a (clamped) scalar `k` with
/// a curve point `u`, a function of the two inputs alone.
pub uninterp spec fn dh_of(k: Seq<u8>, u: Seq<u8>) -> Seq<u8>;

/// The curve's base point: the byte 9 followed by 31 zero bytes.
pub open spec fn spec_base_point() -> Seq<u8> {
    Seq::new(32, |i: int| if i == 0 { 9u8 } else { 0u8 })
}

/// The public key belonging to a 32-byte private key.
pub open spec fn public_of(sk: Seq<u8>) -> Seq<u8> {
    dh_of(sk, spec_base_point())
}

/// Relies on `x25519_dalek::x25519`, the bare RFC 7748 function: 32 bytes
/// out, determined by the two inputs alone; and the Diffie-Hellman property
/// that when `u` is itself a public key, the result equals what the owner of
/// that key computes from our public key.
#[verifier::external_body]
pub(crate) fn x25519_agree(k: &[u8], u: &[u8]) -> (r: Vec<u8>)
    requires
        k@.len() == DH_KEY_LEN,
        u@.len() == DH_KEY_LEN,
    ensures
        r@ == dh_of(k@, u@),
        r@.len() == DH_KEY_LEN,
        forall|o: Seq<u8>|
            o.len() == DH_KEY_LEN && u@ == #[trigger] dh_of(o, spec_base_point()) ==> r@ == dh_of(
                o,
                dh_of(k@, spec_base_point()),
            ),
{
    let kk: [u8; 32] = k.try_into().expect("length checked by the caller");
    let uu: [u8; 32] = u.try_into().expect("length checked by the caller");
    x25519_dalek::x25519(kk, uu).to_vec()
}

/// The curve's base point as bytes, for deriving a public key.
fn base_point() -> (r: Vec<u8>)
    ensures
        r@ == spec_base_point(),
{
    let mut v: Vec<u8> = Vec::new();
    v.push(9u8);
    let mut i: usize = 0;
    while i < 31
        invariant
            i <= 31,
            v@.len() == i + 1,
            v@[0] == 9u8,
            forall|j: int| 1 <= j <= i ==> v@[j] == 0u8,
        decreases 31 - i,
    {
        v.push(0u8);
        i = i + 1;
    }
    proof {
        assert(v@ =~= spec_base_point());
    }
    v
}

/// The public key for a 32-byte private key.
pub(crate) fn dh_public_key(sk: &[u8]) -> (r: Vec<u8>)
    requires
        sk@.len() == DH_KEY_LEN,
    ensures
        r@ == public_of(sk@),
        r@.len() == DH_KEY_LEN,
{
    let base = base_point();
    x25519_agree(sk, base.as_slice())
}

} // verus!
