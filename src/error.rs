use vstd::prelude::*;

verus! {

/// The kinds of failure that end a verification run.
///
/// A wrong passphrase and a malformed container are both reported as
/// `KeyLoad`, so that the error does not tell which of the two was the cause.
#[derive(Debug, Clone, Copy, PartialEq, Eq, Structural)]
pub enum VerifyError {
    /// One of the three input files was missing or could not be read.
    Io,
    /// The key container could not be opened with the passphrase.
    KeyLoad,
    /// The SHA-256 verifier could not be set up or run on the loaded key.
    VerificationSetup,
    /// The command-line flags were missing or malformed.
    Argument,
}

/// The process exit status for each kind of failure.
pub open spec fn exit_code_of(e: VerifyError) -> u8 {
    match e {
        VerifyError::Argument => 2,
        VerifyError::Io => 3,
        VerifyError::KeyLoad => 4,
        VerifyError::VerificationSetup => 5,
    }
}

/// The exit status of a finished run: zero exactly when a result, true or
/// false, was obtained.
pub open spec fn outcome_exit_code(r: Result<bool, VerifyError>) -> u8 {
    match r {
        Ok(_) => 0,
        Err(e) => exit_code_of(e),
    }
}

impl VerifyError {
    /// The process exit status for this failure; never zero, and different
    /// for each kind.
    pub fn exit_code(&self) -> (r: u8)
        ensures
            r == exit_code_of(*self),
            r != 0,
    {
        match self {
            VerifyError::Argument => 2,
            VerifyError::Io => 3,
            VerifyError::KeyLoad => 4,
            VerifyError::VerificationSetup => 5,
        }
    }

    /// A short description of the failure, one for each kind. It never
    /// holds any part of the passphrase or of the key.
    pub fn message(&self) -> (r: &'static str)
        ensures
            *self == VerifyError::Io ==> r@ == "could not read an input file"@,
            *self == VerifyError::KeyLoad ==> r@ == "could not load the private key"@,
            *self == VerifyError::VerificationSetup ==> r@
                == "could not run the sha256 verifier on the key"@,
            *self == VerifyError::Argument ==> r@ == "missing or malformed arguments"@,
    {
        match self {
            VerifyError::Io => "could not read an input file",
            VerifyError::KeyLoad => "could not load the private key",
            VerifyError::VerificationSetup => "could not run the sha256 verifier on the key",
            VerifyError::Argument => "missing or malformed arguments",
        }
    }
}

/// The exit status for the outcome of a run.
pub fn exit_code(r: &Result<bool, VerifyError>) -> (c: u8)
    ensures
        c == outcome_exit_code(*r),
        c == 0 <==> r is Ok,
{
    match r {
        Ok(_) => 0,
        Err(e) => e.exit_code(),
    }
}

/// Distinct failures give distinct exit statuses, and none of them is the
/// status of a completed check.
pub proof fn lemma_exit_codes_distinct(a: VerifyError, b: VerifyError)
    ensures
        exit_code_of(a) != 0,
        exit_code_of(a) == exit_code_of(b) <==> a == b,
{
}

} // verus!
