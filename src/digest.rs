//! The personalised 256-bit blake2b digest that pins embedded modules.
use blake2b_rs::Blake2bBuilder;
use vstd::prelude::*;

verus! {

/// The 32-byte blake2b digest of `data` under the personalisation `personal`.
pub uninterp spec fn blake2b_256_of(personal: Seq<u8>, data: Seq<u8>) -> Seq<u8>;

/// The personalisation `ckb-default-hash`.
pub const HASH_PERSONALIZATION: [u8; 16] = [
    99,
    107,
    98,
    45,
    100,
    101,
    102,
    97,
    117,
    108,
    116,
    45,
    104,
    97,
    115,
    104,
];

/// Relies on blake2b_rs::Blake2bBuilder (new, personal, build) and
/// Blake2b::update / finalize: a 32-byte digest, a function of the
/// personalisation and the data alone. `personal` panics above 16 bytes.
#[verifier::external_body]
fn blake2b_256(personal: &[u8], data: &[u8]) -> (r: Vec<u8>)
    requires
        personal@.len() <= 16,
    ensures
        r@ == blake2b_256_of(personal@, data@),
        r@.len() == 32,
{
    let mut hasher = Blake2bBuilder::new(32).personal(personal).build();
    hasher.update(data);
    let mut hash = [0u8; 32];
    hasher.finalize(&mut hash);
    hash.to_vec()
}

/// The digest that pins a module's binary.
pub open spec fn module_digest_spec(binary: Seq<u8>) -> Seq<u8> {
    blake2b_256_of(HASH_PERSONALIZATION@, binary)
}

/// Computes the digest that pins a module's binary.
pub fn module_digest(binary: &[u8]) -> (r: Vec<u8>)
    ensures
        r@ == module_digest_spec(binary@),
        r@.len() == 32,
{
    let personal = HASH_PERSONALIZATION;
    blake2b_256(&personal, binary)
}

} // verus!
