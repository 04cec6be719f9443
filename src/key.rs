use crate::crypto::{private_key_from_pem_passphrase, MAX_PEM_LEN};
use crate::error::VerifyError;
use openssl::error::ErrorStack;
use openssl::pkey::{PKey, Private};
use vstd::prelude::*;

verus! {

/// A passphrase that can be handed to openssl: it holds no zero byte, since
/// openssl reads it as a C string.
pub open spec fn passphrase_usable(p: Seq<u8>) -> bool {
    forall|i: int| 0 <= i < p.len() ==> p[i] != 0u8
}

/// A container and passphrase that openssl can be asked to open at all.
pub open spec fn key_input_admissible(pem: Seq<u8>, passphrase: Seq<u8>) -> bool {
    pem.len() <= MAX_PEM_LEN && passphrase_usable(passphrase)
}

/// A private key that was decrypted from its container, ready to verify
/// signatures. A handle exists only where decryption succeeded.
pub struct KeyHandle {
    pub(crate) key: PKey<Private>,
}

/// Whether the passphrase holds no zero byte.
pub fn is_passphrase_usable(passphrase: &[u8]) -> (r: bool)
    ensures
        r == passphrase_usable(passphrase@),
{
    let mut i: usize = 0;
    while i < passphrase.len()
        invariant
            i <= passphrase@.len(),
            forall|j: int| 0 <= j < i ==> passphrase@[j] != 0u8,
        decreases passphrase@.len() - i,
    {
        if passphrase[i] == 0u8 {
            return false;
        }
        i = i + 1;
    }
    true
}

impl KeyHandle {
    /// Opens a PEM key container with the passphrase.
    ///
    /// Every failure is `KeyLoad`: a malformed container, a wrong passphrase
    /// and a corrupted container are not told apart. A passphrase with a
    /// zero byte, or a container too long for openssl, fails without
    /// reaching openssl.
    pub fn load(pem: &[u8], passphrase: &[u8]) -> (r: Result<KeyHandle, VerifyError>)
        ensures
            r is Err ==> r->Err_0 == VerifyError::KeyLoad,
            !key_input_admissible(pem@, passphrase@) ==> r is Err,
    {
        if pem.len() > MAX_PEM_LEN || !is_passphrase_usable(passphrase) {
            return Err(VerifyError::KeyLoad);
        }
        let opened = private_key_from_pem_passphrase(pem, passphrase);
        KeyHandle::from_opened(opened)
    }

    /// Turns openssl's answer on a key container into a handle: a key
    /// becomes a handle, any openssl error becomes `KeyLoad`.
    pub fn from_opened(opened: Result<PKey<Private>, ErrorStack>) -> (r: Result<
        KeyHandle,
        VerifyError,
    >)
        ensures
            r is Ok <==> opened is Ok,
            r is Err ==> r->Err_0 == VerifyError::KeyLoad,
    {
        match opened {
            Ok(key) => Ok(KeyHandle { key }),
            Err(_) => Err(VerifyError::KeyLoad),
        }
    }
}

} // verus!
