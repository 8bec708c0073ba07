//! Signing, verifying and encoding of text, with the rules that the command
//! line around them follows.
//!
//! The library signs a message with one of two interchangeable schemes, a
//! keyed hash over a shared secret or a public-key signature, and carries the
//! signature as URL-safe base64 text. It does no input or output: callers hand
//! it the bytes they have read and write out what it returns.

pub mod cli;
pub mod process;

pub use cli::genpass::GenPassOpts;
pub use cli::{verify_file, verify_path, Base64Format, TextSignFormat};
pub use process::b64::{is_encodable, process_decode, process_encode};
pub use process::gen_pass::{password_strength, process_genpass, StrengthError};
pub use process::text::{
    process_keygen, process_sign, process_verify, Blake3, Ed25519Signer, Ed25519Verifier, KeyGen,
    TextSign, TextVerify,
};
pub use process::ProcessError;
