use crate::error::VerifyError;
use crate::key::key_input_admissible;
use crate::signature::verify_data;
use vstd::prelude::*;

verus! {

/// The paths of the three inputs of a check.
pub struct Paths {
    pub key: String,
    pub data: String,
    pub signature: String,
}

/// What an invocation asks for.
pub enum Command {
    /// Print the usage text and stop, without any verification.
    Help,
    /// Check the signature file against the data file with the key file.
    Check(Paths),
}

/// Decides what to do from the command-line flags: `-h`, and the values of
/// `-k`, `-d` and `-s` where they were given. Help wins over everything
/// else; otherwise all three paths are needed, and a missing one is an
/// `Argument` error.
pub fn select_command(
    help: bool,
    key: Option<String>,
    data: Option<String>,
    signature: Option<String>,
) -> (r: Result<Command, VerifyError>)
    ensures
        help ==> r is Ok && r->Ok_0 is Help,
        !help ==> (r is Ok <==> (key is Some && data is Some && signature is Some)),
        r is Err ==> r->Err_0 == VerifyError::Argument,
        r is Ok && r->Ok_0 is Check ==> !help && r->Ok_0->Check_0.key@ == key->Some_0@
            && r->Ok_0->Check_0.data@ == data->Some_0@ && r->Ok_0->Check_0.signature@
            == signature->Some_0@,
{
    if help {
        return Ok(Command::Help);
    }
    match (key, data, signature) {
        (Some(key), Some(data), Some(signature)) => Ok(Command::Check(Paths { key, data, signature })),
        _ => Err(VerifyError::Argument),
    }
}

/// The contents of the three inputs, all read.
pub struct Inputs {
    pub key_container: Vec<u8>,
    pub data: Vec<u8>,
    pub signature: Vec<u8>,
}

/// Collects what was read from the three input files, `None` standing for a
/// file that could not be read. Any file missing gives `Io`, so no key is
/// opened and no verification is attempted.
pub fn gather(
    key_container: Option<Vec<u8>>,
    data: Option<Vec<u8>>,
    signature: Option<Vec<u8>>,
) -> (r: Result<Inputs, VerifyError>)
    ensures
        r is Ok <==> (key_container is Some && data is Some && signature is Some),
        r is Err ==> r->Err_0 == VerifyError::Io,
        r is Ok ==> r->Ok_0.key_container@ == key_container->Some_0@ && r->Ok_0.data@
            == data->Some_0@ && r->Ok_0.signature@ == signature->Some_0@,
{
    match (key_container, data, signature) {
        (Some(key_container), Some(data), Some(signature)) => Ok(
            Inputs { key_container, data, signature },
        ),
        _ => Err(VerifyError::Io),
    }
}

impl Inputs {
    /// Opens the key container with the passphrase and checks the signature
    /// over the data, as `verify_data` does.
    pub fn verify(&self, passphrase: &[u8]) -> (r: Result<bool, VerifyError>)
        ensures
            r is Err ==> (r->Err_0 == VerifyError::KeyLoad || r->Err_0
                == VerifyError::VerificationSetup),
            !key_input_admissible(self.key_container@, passphrase@) ==> r == Err::<
                bool,
                VerifyError,
            >(VerifyError::KeyLoad),
    {
        verify_data(self.key_container.as_slice(), passphrase, self.data.as_slice(), self.signature.as_slice())
    }
}

/// The line that reports a completed check.
pub fn report_line(matched: bool) -> (r: &'static str)
    ensures
        matched ==> r@ == "Signature match: true"@,
        !matched ==> r@ == "Signature match: false"@,
{
    if matched {
        "Signature match: true"
    } else {
        "Signature match: false"
    }
}

} // verus!
