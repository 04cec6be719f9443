use crate::crypto::{verifier_new, verifier_update, verifier_verify};
use crate::error::VerifyError;
use crate::key::{key_input_admissible, KeyHandle};
use openssl::error::ErrorStack;
use openssl::hash::MessageDigest;
use vstd::prelude::*;

verus! {

/// What openssl's final verification answer means for the caller: its
/// boolean is the result, an error means the verifier could not run.
pub open spec fn verification_result(answer: Result<bool, ErrorStack>) -> Result<bool, VerifyError> {
    match answer {
        Ok(matched) => Ok(matched),
        Err(_) => Err(VerifyError::VerificationSetup),
    }
}

/// Turns openssl's final verification answer into the result of the check.
/// A signature that does not match is `Ok(false)`, not an error.
pub fn result_of_answer(answer: Result<bool, ErrorStack>) -> (r: Result<bool, VerifyError>)
    ensures
        r == verification_result(answer),
{
    match answer {
        Ok(matched) => Ok(matched),
        Err(_) => Err(VerifyError::VerificationSetup),
    }
}

impl KeyHandle {
    /// Checks `signature` against the SHA-256 digest of `data` under this
    /// key. Any data and any signature are accepted, empty ones included.
    ///
    /// `Ok(true)` means the signature matches, `Ok(false)` that it does not;
    /// the only error is `VerificationSetup`, when openssl cannot set up or
    /// run the verifier for this key.
    pub fn verify(&self, data: &[u8], signature: &[u8]) -> (r: Result<bool, VerifyError>)
        ensures
            r is Err ==> r->Err_0 == VerifyError::VerificationSetup,
    {
        let mut verifier = match verifier_new(MessageDigest::sha256(), &self.key) {
            Ok(v) => v,
            Err(_) => return Err(VerifyError::VerificationSetup),
        };
        if verifier_update(&mut verifier, data).is_err() {
            return Err(VerifyError::VerificationSetup);
        }
        result_of_answer(verifier_verify(&verifier, signature))
    }
}

/// Opens the key container with the passphrase and checks the signature over
/// the data with the key.
///
/// A container that cannot be opened gives `KeyLoad`, whatever the cause;
/// a verifier that cannot run gives `VerificationSetup`; otherwise the
/// result says whether the signature matched.
pub fn verify_data(key_data: &[u8], password: &[u8], data: &[u8], signature: &[u8]) -> (r: Result<
    bool,
    VerifyError,
>)
    ensures
        r is Err ==> (r->Err_0 == VerifyError::KeyLoad || r->Err_0
            == VerifyError::VerificationSetup),
        !key_input_admissible(key_data@, password@) ==> r == Err::<bool, VerifyError>(
            VerifyError::KeyLoad,
        ),
{
    let key = match KeyHandle::load(key_data, password) {
        Ok(k) => k,
        Err(e) => return Err(e),
    };
    key.verify(data, signature)
}

} // verus!
