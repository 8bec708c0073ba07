//! The operations behind the commands: encoding, password generation, and
//! signing.

use vstd::prelude::*;

pub mod b64;
pub mod gen_pass;
pub mod text;

verus! {

/// Why an operation could not run. A signature that does not verify is no
/// error: verification then ran, and answered `false`.
#[derive(Clone, Copy, Debug, PartialEq, Eq, Structural)]
pub enum ProcessError {
    /// The key has the wrong length for the scheme, or its bytes are no key.
    KeyFormat,
    /// The text is not base64 of the variant asked for.
    Encoding,
    /// The signature has the wrong length for the scheme.
    SignatureFormat,
}

impl ProcessError {
    /// The error in words.
    pub fn message(&self) -> (text: &'static str)
        ensures
            text@ == match self {
                ProcessError::KeyFormat => "the key has the wrong length or is no key"@,
                ProcessError::Encoding => "the text is not valid base64"@,
                ProcessError::SignatureFormat => "the signature has the wrong length"@,
            },
    {
        match self {
            ProcessError::KeyFormat => "the key has the wrong length or is no key",
            ProcessError::Encoding => "the text is not valid base64",
            ProcessError::SignatureFormat => "the signature has the wrong length",
        }
    }
}

} // verus!
