//! What the command line accepts: the format tags and the checks on the
//! paths it is given.

use vstd::prelude::*;

pub mod genpass;

verus! {

/// The base64 variant to encode or decode with.
#[derive(Clone, Copy, Debug, PartialEq, Eq, Structural)]
pub enum Base64Format {
    /// The standard alphabet, padded with `=` to a multiple of four characters.
    Standard,
    /// The URL-safe alphabet, without padding.
    UrlSafe,
}

/// The scheme to sign or verify with.
#[derive(Clone, Copy, Debug, PartialEq, Eq, Structural)]
pub enum TextSignFormat {
    /// The keyed hash: one shared secret key signs and verifies.
    Blake3,
    /// The public-key signature: a secret key signs, its public key verifies.
    Ed25519,
}

/// Whether `filename` names an input that can be read: `-`, which stands for
/// standard input, or a file that exists.
pub open spec fn is_input_file(filename: Seq<char>, found: bool) -> bool {
    filename == "-"@ || found
}

/// Accepts `filename` as the name of an input. `found` says whether a file of
/// that name is there.
pub fn verify_file(filename: &str, found: bool) -> (result: Result<String, &'static str>)
    ensures
        match result {
            Ok(name) => is_input_file(filename@, found) && name@ == filename@,
            Err(message) => !is_input_file(filename@, found) && message@
                == "file does not exist"@,
        },
{
    let name = filename.to_owned();
    if found || name == "-".to_owned() {
        Ok(name)
    } else {
        Err("file does not exist")
    }
}

/// Accepts `path` as the name of a directory to write into. `found` and
/// `is_dir` say what was found under that name.
pub fn verify_path(path: &str, found: bool, is_dir: bool) -> (result: Result<
    String,
    &'static str,
>)
    ensures
        match result {
            Ok(name) => found && is_dir && name@ == path@,
            Err(message) => !(found && is_dir) && message@
                == "File does not exist or is not a directory"@,
        },
{
    if found && is_dir {
        Ok(path.to_owned())
    } else {
        Err("File does not exist or is not a directory")
    }
}

impl Base64Format {
    /// The name of the variant on the command line.
    pub open spec fn spec_name(self) -> Seq<char> {
        match self {
            Base64Format::Standard => "standard"@,
            Base64Format::UrlSafe => "urlsafe"@,
        }
    }

    /// The name of the variant on the command line.
    pub fn name(self) -> (name: &'static str)
        ensures
            name@ == self.spec_name(),
    {
        match self {
            Base64Format::Standard => "standard",
            Base64Format::UrlSafe => "urlsafe",
        }
    }

    /// The variant that `name` names, if it names one.
    pub fn parse(name: &str) -> (format: Option<Self>)
        ensures
            match format {
                Some(format) => name@ == format.spec_name(),
                None => name@ != Base64Format::Standard.spec_name() && name@
                    != Base64Format::UrlSafe.spec_name(),
            },
    {
        let name = name.to_owned();
        if name == Base64Format::Standard.name().to_owned() {
            Some(Base64Format::Standard)
        } else if name == Base64Format::UrlSafe.name().to_owned() {
            Some(Base64Format::UrlSafe)
        } else {
            None
        }
    }
}

impl TextSignFormat {
    /// The name of the scheme on the command line.
    pub open spec fn spec_name(self) -> Seq<char> {
        match self {
            TextSignFormat::Blake3 => "blake3"@,
            TextSignFormat::Ed25519 => "ed25519"@,
        }
    }

    /// The name of the scheme on the command line.
    pub fn name(self) -> (name: &'static str)
        ensures
            name@ == self.spec_name(),
    {
        match self {
            TextSignFormat::Blake3 => "blake3",
            TextSignFormat::Ed25519 => "ed25519",
        }
    }

    /// The scheme that `name` names, if it names one.
    pub fn parse(name: &str) -> (format: Option<Self>)
        ensures
            match format {
                Some(format) => name@ == format.spec_name(),
                None => name@ != TextSignFormat::Blake3.spec_name() && name@
                    != TextSignFormat::Ed25519.spec_name(),
            },
    {
        let name = name.to_owned();
        if name == TextSignFormat::Blake3.name().to_owned() {
            Some(TextSignFormat::Blake3)
        } else if name == TextSignFormat::Ed25519.name().to_owned() {
            Some(TextSignFormat::Ed25519)
        } else {
            None
        }
    }

    /// The names of the files that hold the keys of the scheme, in the order
    /// in which the keys are generated.
    pub open spec fn spec_key_files(self) -> Seq<Seq<char>> {
        match self {
            TextSignFormat::Blake3 => seq!["blake3.key"@],
            TextSignFormat::Ed25519 => seq!["ed25519.sk"@, "ed25519.pk"@],
        }
    }

    /// The names of the files to write generated keys to, one for each key
    /// and in their order.
    pub fn key_files(self) -> (names: Vec<&'static str>)
        ensures
            names@.len() == self.spec_key_files().len(),
            forall|i: int| 0 <= i < names@.len() ==> names@[i]@ == self.spec_key_files()[i],
    {
        match self {
            TextSignFormat::Blake3 => vec!["blake3.key"],
            TextSignFormat::Ed25519 => vec!["ed25519.sk", "ed25519.pk"],
        }
    }
}

} // verus!
