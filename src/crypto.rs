use openssl::error::ErrorStack;
use openssl::hash::MessageDigest;
use openssl::pkey::{PKey, Private};
use openssl::sign::Verifier;
use vstd::prelude::*;

verus! {

#[verifier::external_type_specification]
#[verifier::external_body]
#[verifier::reject_recursive_types(T)]
pub struct ExPKey<T>(PKey<T>);

#[verifier::external_type_specification]
#[verifier::external_body]
pub struct ExPrivate(Private);

#[verifier::external_type_specification]
#[verifier::external_body]
pub struct ExErrorStack(ErrorStack);

#[verifier::external_type_specification]
#[verifier::external_body]
pub struct ExMessageDigest(MessageDigest);

#[verifier::external_type_specification]
#[verifier::external_body]
pub struct ExVerifier<'a>(Verifier<'a>);

/// The largest container that openssl's memory BIO accepts (`c_int::MAX`).
pub const MAX_PEM_LEN: usize = 0x7fff_ffff;

/// Relies on openssl's `PKey::private_key_from_pem_passphrase`, which decodes
/// a PEM private key and decrypts it with the passphrase. It panics on a
/// passphrase with a zero byte (the passphrase becomes a C string) and on a
/// container longer than `c_int::MAX`; both are left out here. Whether it
/// succeeds is openssl's decision.
#[verifier::external_body]
pub(crate) fn private_key_from_pem_passphrase(pem: &[u8], passphrase: &[u8]) -> (r: Result<
    PKey<Private>,
    ErrorStack,
>)
    requires
        pem@.len() <= MAX_PEM_LEN,
        forall|i: int| 0 <= i < passphrase@.len() ==> passphrase@[i] != 0u8,
{
    PKey::private_key_from_pem_passphrase(pem, passphrase)
}

/// Relies on openssl's `MessageDigest::sha256`, the SHA-256 digest.
pub assume_specification[ MessageDigest::sha256 ]() -> MessageDigest;

/// Relies on openssl's `Verifier::new`, which sets up a digest-then-verify
/// context for the key; it may fail, for instance on a key type that cannot
/// verify with a digest.
#[verifier::external_body]
pub(crate) fn verifier_new<'a>(md: MessageDigest, key: &'a PKey<Private>) -> (r: Result<
    Verifier<'a>,
    ErrorStack,
>) {
    Verifier::new(md, key)
}

/// Relies on openssl's `Verifier::update`, which feeds data into the digest.
#[verifier::external_body]
pub(crate) fn verifier_update(v: &mut Verifier, data: &[u8]) -> (r: Result<(), ErrorStack>) {
    v.update(data)
}

/// Relies on openssl's `Verifier::verify`: `Ok(true)` when the signature
/// matches the data fed in, `Ok(false)` when it does not, an error when the
/// check itself could not be carried out.
#[verifier::external_body]
pub(crate) fn verifier_verify(v: &Verifier, signature: &[u8]) -> (r: Result<bool, ErrorStack>) {
    v.verify(signature)
}

} // verus!
