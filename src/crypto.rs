//! The cryptographic primitives used by the generator: SHA-256, RSA-PSS
//! signing and PEM decoding. Each is a thin wrapper over the `ring` or `pem`
//! crate, and its contract says what the generator relies on.

use vstd::prelude::*;

verus! {

/// Largest input length, in bytes, that `ring` digests without panicking:
/// its bit length has to fit in a `u64`.
pub const MAX_DIGEST_INPUT: u64 = 0x1fff_ffff_ffff_ffff;

/// The SHA-256 digest of a byte sequence.
pub uninterp spec fn sha256_of(data: Seq<u8>) -> Seq<u8>;

/// Relies on `ring::digest::digest` with `SHA256`: the digest depends on the
/// input bytes alone and, as `SHA256.output_len` gives, is 32 bytes long.
#[verifier::external_body]
pub(crate) fn sha256(data: &[u8]) -> (r: Vec<u8>)
    requires
        data@.len() <= MAX_DIGEST_INPUT,
    ensures
        r@ == sha256_of(data@),
        r@.len() == 32,
{
    ring::digest::digest(&ring::digest::SHA256, data).as_ref().to_vec()
}

#[verifier::external_type_specification]
#[verifier::external_body]
pub struct ExPem(pem::Pem);

#[verifier::external_type_specification]
#[verifier::external_body]
pub struct ExPemError(pem::PemError);

#[verifier::external_type_specification]
#[verifier::external_body]
pub struct ExRsaKeyPair(ring::rsa::KeyPair);

#[verifier::external_type_specification]
#[verifier::external_body]
pub struct ExKeyRejected(ring::error::KeyRejected);

#[verifier::external_type_specification]
#[verifier::external_body]
pub struct ExUnspecified(ring::error::Unspecified);

#[verifier::external_type_specification]
#[verifier::external_body]
pub struct ExSystemRandom(ring::rand::SystemRandom);

/// Relies on `pem::parse`: decodes the first PEM block of the input.
#[verifier::external_body]
pub(crate) fn pem_parse(input: &[u8]) -> (r: Result<pem::Pem, pem::PemError>) {
    pem::parse(input)
}

/// Relies on `pem::Pem::tag`: the label of the block, as an owned string.
#[verifier::external_body]
pub(crate) fn pem_tag(p: &pem::Pem) -> (r: String) {
    p.tag().to_string()
}

/// Relies on `pem::Pem::into_contents`: the decoded bytes of the block.
#[verifier::external_body]
pub(crate) fn pem_into_contents(p: pem::Pem) -> (r: Vec<u8>) {
    p.into_contents()
}

/// Relies on `ring::rsa::KeyPair::from_der`: parses a PKCS#1 `RSAPrivateKey`.
#[verifier::external_body]
pub(crate) fn rsa_key_from_der(der: &[u8]) -> (r: Result<ring::rsa::KeyPair, ring::error::KeyRejected>) {
    ring::rsa::KeyPair::from_der(der)
}

/// Relies on `ring::rsa::KeyPair::public_modulus_len`: the length in bytes of
/// the public modulus, which is the length of every signature of the key.
#[verifier::external_body]
#[allow(deprecated)]
pub(crate) fn rsa_modulus_len(key: &ring::rsa::KeyPair) -> (r: usize) {
    key.public_modulus_len()
}

/// Relies on `ring::rand::SystemRandom::new`: the operating system's secure
/// random source, used for the PSS salt.
#[verifier::external_body]
pub(crate) fn system_random() -> (r: ring::rand::SystemRandom) {
    ring::rand::SystemRandom::new()
}

/// Relies on `ring::rsa::KeyPair::sign` with `RSA_PSS_SHA256`: fills the
/// signature buffer in place (a slice, so its length stays), and fails when
/// that length differs from the modulus length or the random source fails.
/// The message is digested first, hence the bound on its length.
#[verifier::external_body]
pub(crate) fn rsa_pss_sign(
    key: &ring::rsa::KeyPair,
    rng: &ring::rand::SystemRandom,
    msg: &[u8],
    signature: &mut Vec<u8>,
) -> (r: Result<(), ring::error::Unspecified>)
    requires
        msg@.len() <= MAX_DIGEST_INPUT,
    ensures
        final(signature)@.len() == old(signature)@.len(),
{
    key.sign(&ring::signature::RSA_PSS_SHA256, rng, msg, signature.as_mut_slice())
}

} // verus!
