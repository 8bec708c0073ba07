//! Signing and verifying: the keyed-hash scheme, the public-key scheme, and
//! the functions that pick one of them by its format tag.

use ed25519_dalek::{Signature, Signer, SigningKey, Verifier, VerifyingKey};
use rand::rngs::OsRng;
use vstd::prelude::*;

use crate::cli::{Base64Format, TextSignFormat};
use crate::process::b64::{
    is_url_safe_text, process_decode, process_encode, unpadded_len, url_safe_decoding,
    url_safe_encoding,
};
use crate::process::gen_pass::{
    ascii_chars, is_ascii_bytes, is_password, lemma_password_bytes, process_genpass,
};
use crate::process::ProcessError;

verus! {

/// The length of every key of either scheme, in bytes.
pub const KEY_LEN: usize = 32;

/// The length of a public-key signature, in bytes.
pub const SIGNATURE_LEN: usize = 64;

/// The BLAKE3 keyed hash of `data` under `key`, as `blake3::keyed_hash`
/// computes it.
pub uninterp spec fn blake3_keyed_hash(key: Seq<u8>, data: Seq<u8>) -> Seq<u8>;

/// `blake3::keyed_hash`. Trusted: the digest is the named hash of the key and
/// the data.
#[verifier::external_body]
fn keyed_hash(key: &[u8; 32], data: &[u8]) -> (digest: [u8; 32])
    ensures
        digest@ == blake3_keyed_hash(key@, data@),
{
    *blake3::keyed_hash(key, data).as_bytes()
}

/// `ed25519_dalek::SignatureError`, never read: a key that brings it is
/// `KeyFormat`.
#[verifier::external_type_specification]
#[verifier::external_body]
pub struct ExSignatureError(ed25519_dalek::SignatureError);

/// The Ed25519 signature that the secret key `secret` gives to `data`, as
/// `ed25519_dalek` computes it. The scheme draws no randomness when it signs.
pub uninterp spec fn ed25519_signature(secret: Seq<u8>, data: Seq<u8>) -> Seq<u8>;

/// The public key that belongs to the secret key `secret`, as `ed25519_dalek`
/// derives it.
pub uninterp spec fn ed25519_public_key(secret: Seq<u8>) -> Seq<u8>;

/// Whether `ed25519_dalek` takes `bytes` for a public key.
pub uninterp spec fn is_ed25519_public_key(bytes: Seq<u8>) -> bool;

/// Whether `ed25519_dalek` takes `bytes` for a public key and, under that
/// key, `sig` for a signature of `data`.
pub uninterp spec fn ed25519_verifies(public: Seq<u8>, data: Seq<u8>, sig: Seq<u8>) -> bool;

/// `SigningKey::generate` of `ed25519_dalek`, on the system's random number
/// generator, and `SigningKey::to_bytes`. Nothing is claimed of the 32 bytes
/// that come back.
#[verifier::external_body]
fn ed25519_fresh_secret() -> [u8; 32] {
    SigningKey::generate(&mut OsRng).to_bytes()
}

/// `SigningKey::verifying_key` of `ed25519_dalek`, on the key made of
/// `secret`. Trusted: the result is the named public key, and one that the
/// crate takes for a public key.
#[verifier::external_body]
fn ed25519_derive_public(secret: &[u8; 32]) -> (public: [u8; 32])
    ensures
        public@ == ed25519_public_key(secret@),
        is_ed25519_public_key(public@),
{
    SigningKey::from_bytes(secret).verifying_key().to_bytes()
}

/// `Signer::sign` of `ed25519_dalek`, on the key made of `secret`. Trusted:
/// the result is the named signature, and it verifies under the public key
/// that belongs to `secret`.
#[verifier::external_body]
fn ed25519_sign(secret: &[u8; 32], data: &[u8]) -> (sig: [u8; 64])
    ensures
        sig@ == ed25519_signature(secret@, data@),
        ed25519_verifies(ed25519_public_key(secret@), data@, sig@),
{
    SigningKey::from_bytes(secret).sign(data).to_bytes()
}

/// `VerifyingKey::from_bytes` of `ed25519_dalek`. Trusted: it succeeds
/// exactly on what the crate takes for a public key.
#[verifier::external_body]
fn ed25519_check_public(bytes: &[u8; 32]) -> (result: Result<(), ed25519_dalek::SignatureError>)
    ensures
        result is Ok <==> is_ed25519_public_key(bytes@),
{
    match VerifyingKey::from_bytes(bytes) {
        Ok(_) => Ok(()),
        Err(e) => Err(e),
    }
}

/// `Verifier::verify` of `ed25519_dalek`, on the key made of `public`.
/// Trusted: the answer is the named check. Bytes that are no public key
/// verify nothing.
#[verifier::external_body]
fn ed25519_verify(public: &[u8; 32], data: &[u8], sig: &[u8; 64]) -> (valid: bool)
    ensures
        valid == ed25519_verifies(public@, data@, sig@),
{
    match VerifyingKey::from_bytes(public) {
        Ok(key) => key.verify(data, &Signature::from_bytes(sig)).is_ok(),
        Err(_) => false,
    }
}

/// The first `N` bytes of `bytes`.
fn leading<const N: usize>(bytes: &[u8]) -> (head: [u8; N])
    requires
        N <= bytes@.len(),
    ensures
        head@ == bytes@.subrange(0, N as int),
{
    let mut head = [0u8; N];
    let mut i: usize = 0;
    while i < N
        invariant
            i <= N <= bytes@.len(),
            head@.len() == N,
            forall|j: int| 0 <= j < i ==> head@[j] == bytes@[j],
        decreases N - i,
    {
        head[i] = bytes[i];
        i += 1;
    }
    assert(head@ =~= bytes@.subrange(0, N as int));
    head
}

/// Whether two byte strings are the same, length and content.
pub fn bytes_equal(left: &[u8], right: &[u8]) -> (same: bool)
    ensures
        same == (left@ == right@),
{
    if left.len() != right.len() {
        return false;
    }
    let mut i: usize = 0;
    while i < left.len()
        invariant
            i <= left@.len() == right@.len(),
            forall|j: int| 0 <= j < i ==> left@[j] == right@[j],
        decreases left@.len() - i,
    {
        if left[i] != right[i] {
            return false;
        }
        i += 1;
    }
    assert(left@ =~= right@);
    true
}

/// A copy of `bytes` in a vector.
fn to_vec<const N: usize>(bytes: &[u8; N]) -> (copy: Vec<u8>)
    ensures
        copy@ == bytes@,
{
    vstd::slice::slice_to_vec(bytes.as_slice())
}

/// What signs a message.
pub trait TextSign {
    /// The signature that this signer gives to `data`.
    spec fn signature(&self, data: Seq<u8>) -> Seq<u8>;

    /// Signs `data`.
    fn sign(&self, data: &[u8]) -> (result: Result<Vec<u8>, ProcessError>)
        ensures
            result matches Ok(sig) && sig@ == self.signature(data@),
    ;
}

/// What checks a signature against a message.
pub trait TextVerify {
    /// What checking `sig` against `data` answers: whether `sig` is a
    /// signature of `data`, or why the check could not run.
    spec fn verification(&self, data: Seq<u8>, sig: Seq<u8>) -> Result<bool, ProcessError>;

    /// Checks `sig` against `data`.
    fn verify(&self, data: &[u8], sig: &[u8]) -> (result: Result<bool, ProcessError>)
        ensures
            result == self.verification(data@, sig@),
    ;
}

/// What makes new keys.
pub trait KeyGen {
    /// Whether `keys` is key material of this scheme, each key in its place.
    spec fn is_key_material(keys: Seq<Seq<u8>>) -> bool;

    /// Makes new key material from the system's randomness.
    fn generate() -> (result: Result<Vec<Vec<u8>>, ProcessError>)
        ensures
            result matches Ok(keys) && Self::is_key_material(key_bytes(keys@)),
    ;
}

/// The bytes of each key, in the order of the keys.
pub open spec fn key_bytes(keys: Seq<Vec<u8>>) -> Seq<Seq<u8>> {
    Seq::new(keys.len(), |i: int| keys[i]@)
}

/// What the keyed hash answers when `sig` is checked against `data` under
/// `key`: whether `sig` is the keyed hash of `data`. A signature of another
/// length is a wrong one: the answer is `false`, never an error.
pub open spec fn keyed_hash_verification(key: Seq<u8>, data: Seq<u8>, sig: Seq<u8>) -> Result<
    bool,
    ProcessError,
> {
    Ok(sig == blake3_keyed_hash(key, data))
}

/// What the public-key scheme answers when `sig` is checked against `data`
/// under the public key `public`: whether `sig` is a signature of `data`. A
/// signature that has not 64 bytes cannot be checked: that is the error
/// `SignatureFormat`.
pub open spec fn ed25519_verification(public: Seq<u8>, data: Seq<u8>, sig: Seq<u8>) -> Result<
    bool,
    ProcessError,
> {
    if sig.len() != SIGNATURE_LEN {
        Err(ProcessError::SignatureFormat)
    } else {
        Ok(ed25519_verifies(public, data, sig))
    }
}

/// Whether `key` can be the key of a verifier: 32 bytes that are a public key.
pub open spec fn is_verifying_key(key: Seq<u8>) -> bool {
    key.len() == KEY_LEN && is_ed25519_public_key(key)
}

/// The keyed-hash scheme: a shared secret key of 32 bytes signs and verifies.
pub struct Blake3 {
    key: [u8; 32],
}

impl View for Blake3 {
    type V = Seq<u8>;

    /// The key.
    closed spec fn view(&self) -> Seq<u8> {
        self.key@
    }
}

impl Blake3 {
    /// The scheme with the key `key`.
    pub fn new(key: [u8; 32]) -> (scheme: Self)
        ensures
            scheme@ == key@,
    {
        Blake3 { key }
    }

    /// The scheme whose key is the first 32 bytes of `key`; what follows them
    /// is not used. Fails with `KeyFormat` exactly where `key` is shorter.
    pub fn try_new(key: &[u8]) -> (result: Result<Self, ProcessError>)
        ensures
            match result {
                Ok(scheme) => key@.len() >= KEY_LEN && scheme@ == key@.subrange(
                    0,
                    KEY_LEN as int,
                ),
                Err(e) => key@.len() < KEY_LEN && e == ProcessError::KeyFormat,
            },
    {
        if key.len() < KEY_LEN {
            return Err(ProcessError::KeyFormat);
        }
        Ok(Blake3::new(leading::<32>(key)))
    }

    /// Every key has 32 bytes.
    pub proof fn lemma_key_len(self)
        ensures
            self@.len() == KEY_LEN,
    {
    }
}

impl TextSign for Blake3 {
    /// The keyed hash of `data` under the key.
    open spec fn signature(&self, data: Seq<u8>) -> Seq<u8> {
        blake3_keyed_hash(self@, data)
    }

    fn sign(&self, data: &[u8]) -> (result: Result<Vec<u8>, ProcessError>)
        ensures
            result matches Ok(sig) && sig@.len() == KEY_LEN,
    {
        let digest = keyed_hash(&self.key, data);
        Ok(to_vec(&digest))
    }
}

impl TextVerify for Blake3 {
    /// What the keyed hash answers under the key.
    open spec fn verification(&self, data: Seq<u8>, sig: Seq<u8>) -> Result<bool, ProcessError> {
        keyed_hash_verification(self@, data, sig)
    }

    fn verify(&self, data: &[u8], sig: &[u8]) -> (result: Result<bool, ProcessError>) {
        let digest = keyed_hash(&self.key, data);
        Ok(bytes_equal(digest.as_slice(), sig))
    }
}

impl KeyGen for Blake3 {
    /// One key: the 32 bytes of a password of 32 characters, drawn from all
    /// four classes of characters.
    open spec fn is_key_material(keys: Seq<Seq<u8>>) -> bool {
        &&& keys.len() == 1
        &&& is_ascii_bytes(keys[0])
        &&& is_password(ascii_chars(keys[0]), 32, 1, 1, 1, 1)
    }

    fn generate() -> (result: Result<Vec<Vec<u8>>, ProcessError>) {
        let password = process_genpass(32, 1, 1, 1, 1);
        let key = password.as_str().as_bytes_vec();
        proof {
            lemma_password_bytes(password@, 32, 1, 1, 1, 1);
        }
        let ghost bytes = key@;
        let keys = vec![key];
        assert(key_bytes(keys@)[0] == bytes);
        Ok(keys)
    }
}

/// The signing half of the public-key scheme: it holds a secret key.
pub struct Ed25519Signer {
    key: [u8; 32],
}

impl View for Ed25519Signer {
    type V = Seq<u8>;

    /// The secret key.
    closed spec fn view(&self) -> Seq<u8> {
        self.key@
    }
}

impl Ed25519Signer {
    /// The signer with the secret key `key`.
    pub fn new(key: [u8; 32]) -> (signer: Self)
        ensures
            signer@ == key@,
    {
        Ed25519Signer { key }
    }

    /// The signer whose secret key is `key`. Fails with `KeyFormat` exactly
    /// where `key` has not 32 bytes.
    pub fn try_new(key: &[u8]) -> (result: Result<Self, ProcessError>)
        ensures
            match result {
                Ok(signer) => key@.len() == KEY_LEN && signer@ == key@,
                Err(e) => key@.len() != KEY_LEN && e == ProcessError::KeyFormat,
            },
    {
        if key.len() != KEY_LEN {
            return Err(ProcessError::KeyFormat);
        }
        let fixed = leading::<32>(key);
        assert(fixed@ == key@);
        Ok(Ed25519Signer::new(fixed))
    }

    /// The public key that verifies what this signer signs.
    pub open spec fn public_key(&self) -> Seq<u8> {
        ed25519_public_key(self@)
    }

    /// Every secret key has 32 bytes.
    pub proof fn lemma_key_len(self)
        ensures
            self@.len() == KEY_LEN,
    {
    }
}

impl TextSign for Ed25519Signer {
    /// The signature of `data` under the secret key.
    open spec fn signature(&self, data: Seq<u8>) -> Seq<u8> {
        ed25519_signature(self@, data)
    }

    /// The signature has 64 bytes, and verifies under the signer's public
    /// key.
    fn sign(&self, data: &[u8]) -> (result: Result<Vec<u8>, ProcessError>)
        ensures
            result matches Ok(sig) && sig@.len() == SIGNATURE_LEN && ed25519_verification(
                self.public_key(),
                data@,
                sig@,
            ) == Ok::<bool, ProcessError>(true),
    {
        let sig = ed25519_sign(&self.key, data);
        Ok(to_vec(&sig))
    }
}

impl KeyGen for Ed25519Signer {
    /// Two keys of 32 bytes: a secret key, then the public key that belongs
    /// to it.
    open spec fn is_key_material(keys: Seq<Seq<u8>>) -> bool {
        &&& keys.len() == 2
        &&& keys[0].len() == KEY_LEN
        &&& keys[1].len() == KEY_LEN
        &&& keys[1] == ed25519_public_key(keys[0])
        &&& is_ed25519_public_key(keys[1])
    }

    fn generate() -> (result: Result<Vec<Vec<u8>>, ProcessError>) {
        let secret = ed25519_fresh_secret();
        let public = ed25519_derive_public(&secret);
        let keys = vec![to_vec(&secret), to_vec(&public)];
        assert(key_bytes(keys@)[0] == secret@ && key_bytes(keys@)[1] == public@);
        Ok(keys)
    }
}

/// The verifying half of the public-key scheme: it holds a public key, and
/// never sees the secret one.
pub struct Ed25519Verifier {
    key: [u8; 32],
}

impl View for Ed25519Verifier {
    type V = Seq<u8>;

    /// The public key.
    closed spec fn view(&self) -> Seq<u8> {
        self.key@
    }
}

impl Ed25519Verifier {
    /// Every verifier holds bytes that are a public key.
    #[verifier::type_invariant]
    spec fn holds_public_key(self) -> bool {
        is_ed25519_public_key(self.key@)
    }

    /// The verifier with the public key `key`.
    pub fn new(key: [u8; 32]) -> (verifier: Self)
        requires
            is_ed25519_public_key(key@),
        ensures
            verifier@ == key@,
    {
        Ed25519Verifier { key }
    }

    /// The public key.
    pub fn as_bytes(&self) -> (key: &[u8; 32])
        ensures
            key@ == self@,
            is_verifying_key(key@),
    {
        proof {
            use_type_invariant(self);
        }
        &self.key
    }

    /// The verifier whose public key is `key`. Fails with `KeyFormat` exactly
    /// where `key` has not 32 bytes, or its bytes are no public key.
    pub fn try_new(key: &[u8]) -> (result: Result<Self, ProcessError>)
        ensures
            match result {
                Ok(verifier) => is_verifying_key(key@) && verifier@ == key@,
                Err(e) => !is_verifying_key(key@) && e == ProcessError::KeyFormat,
            },
    {
        if key.len() != KEY_LEN {
            return Err(ProcessError::KeyFormat);
        }
        let fixed = leading::<32>(key);
        assert(fixed@ == key@);
        match ed25519_check_public(&fixed) {
            Ok(_) => Ok(Ed25519Verifier::new(fixed)),
            Err(_) => Err(ProcessError::KeyFormat),
        }
    }

    /// Every public key has 32 bytes.
    pub proof fn lemma_key_len(self)
        ensures
            self@.len() == KEY_LEN,
    {
    }
}

impl TextVerify for Ed25519Verifier {
    /// What the public-key scheme answers under the public key.
    open spec fn verification(&self, data: Seq<u8>, sig: Seq<u8>) -> Result<bool, ProcessError> {
        ed25519_verification(self@, data, sig)
    }

    fn verify(&self, data: &[u8], sig: &[u8]) -> (result: Result<bool, ProcessError>) {
        if sig.len() != SIGNATURE_LEN {
            return Err(ProcessError::SignatureFormat);
        }
        let fixed = leading::<64>(sig);
        assert(fixed@ == sig@);
        Ok(ed25519_verify(&self.key, data, &fixed))
    }
}

/// The length of the signatures of the scheme `format`, in bytes.
pub open spec fn signature_len(format: TextSignFormat) -> nat {
    match format {
        TextSignFormat::Blake3 => 32,
        TextSignFormat::Ed25519 => 64,
    }
}

/// The signature that the scheme `format` gives to `input` under `key`, or
/// `KeyFormat` where `key` is no signing key of that scheme: shorter than 32
/// bytes for the keyed hash, which uses the first 32; not 32 bytes for the
/// public-key scheme.
pub open spec fn signature_of(input: Seq<u8>, key: Seq<u8>, format: TextSignFormat) -> Result<
    Seq<u8>,
    ProcessError,
> {
    match format {
        TextSignFormat::Blake3 => if key.len() < KEY_LEN {
            Err(ProcessError::KeyFormat)
        } else {
            Ok(blake3_keyed_hash(key.subrange(0, KEY_LEN as int), input))
        },
        TextSignFormat::Ed25519 => if key.len() != KEY_LEN {
            Err(ProcessError::KeyFormat)
        } else {
            Ok(ed25519_signature(key, input))
        },
    }
}

/// What checking the signature text `sig` against `input` under `key`
/// answers in the scheme `format`. The text is decoded first, then the key
/// is checked, then the signature: the first of these that fails names the
/// error. The keyed hash takes a key of 32 bytes or more and uses the first
/// 32; the public-key scheme takes 32 bytes that are a public key.
pub open spec fn verification_of(
    input: Seq<u8>,
    key: Seq<u8>,
    sig: Seq<char>,
    format: TextSignFormat,
) -> Result<bool, ProcessError> {
    match url_safe_decoding(sig) {
        None => Err(ProcessError::Encoding),
        Some(raw) => match format {
            TextSignFormat::Blake3 => if key.len() < KEY_LEN {
                Err(ProcessError::KeyFormat)
            } else {
                keyed_hash_verification(key.subrange(0, KEY_LEN as int), input, raw)
            },
            TextSignFormat::Ed25519 => if !is_verifying_key(key) {
                Err(ProcessError::KeyFormat)
            } else {
                ed25519_verification(key, input, raw)
            },
        },
    }
}

/// Signs `input` with the key `key` in the scheme `format`, and gives the
/// signature as URL-safe base64 text without padding: 43 characters for the
/// keyed hash, 86 for the public-key scheme. Decoding the text gives the
/// signature back.
pub fn process_sign(input: &[u8], key: &[u8], format: TextSignFormat) -> (result: Result<
    String,
    ProcessError,
>)
    ensures
        match result {
            Ok(text) => {
                &&& signature_of(input@, key@, format) matches Ok(raw)
                &&& raw.len() == signature_len(format)
                &&& text@ == url_safe_encoding(raw)
                &&& url_safe_decoding(text@) == Some(raw)
                &&& is_url_safe_text(text@)
                &&& text@.len() == unpadded_len(signature_len(format))
            },
            Err(e) => signature_of(input@, key@, format) == Err::<Seq<u8>, ProcessError>(e),
        },
{
    let signed = match format {
        TextSignFormat::Blake3 => {
            let signer = Blake3::try_new(key)?;
            signer.sign(input)?
        },
        TextSignFormat::Ed25519 => {
            let signer = Ed25519Signer::try_new(key)?;
            signer.sign(input)?
        },
    };
    Ok(process_encode(signed.as_slice(), Base64Format::UrlSafe))
}

/// Checks the signature text `sig` against `input` with the key `key` in the
/// scheme `format`. A signature that does not match answers `Ok(false)`; an
/// error says that the check could not run.
pub fn process_verify(
    input: &[u8],
    key: &[u8],
    sig: String,
    format: TextSignFormat,
) -> (result: Result<bool, ProcessError>)
    ensures
        result == verification_of(input@, key@, sig@, format),
{
    let raw = process_decode(sig.as_str(), Base64Format::UrlSafe)?;
    match format {
        TextSignFormat::Blake3 => {
            let verifier = Blake3::try_new(key)?;
            verifier.verify(input, raw.as_slice())
        },
        TextSignFormat::Ed25519 => {
            let verifier = Ed25519Verifier::try_new(key)?;
            verifier.verify(input, raw.as_slice())
        },
    }
}

/// Makes new key material for the scheme `format`: one key for the keyed
/// hash; for the public-key scheme the secret key, then the public key.
pub fn process_keygen(format: TextSignFormat) -> (result: Result<Vec<Vec<u8>>, ProcessError>)
    ensures
        result matches Ok(keys) && match format {
            TextSignFormat::Blake3 => Blake3::is_key_material(key_bytes(keys@)),
            TextSignFormat::Ed25519 => Ed25519Signer::is_key_material(key_bytes(keys@)),
        },
{
    match format {
        TextSignFormat::Blake3 => Blake3::generate(),
        TextSignFormat::Ed25519 => Ed25519Signer::generate(),
    }
}

/// The keyed hash verifies what it signs: for every key and every message,
/// the signature of the message under the key verifies under that key.
pub proof fn lemma_keyed_hash_round_trip(scheme: Blake3, data: Seq<u8>)
    ensures
        scheme.verification(data, scheme.signature(data)) == Ok::<bool, ProcessError>(true),
{
}

/// The keyed hash rejects every other signature: whatever differs from the
/// signature of the message, in length or in content, verifies as `false`,
/// and never as an error.
pub proof fn lemma_keyed_hash_rejects_others(scheme: Blake3, data: Seq<u8>, sig: Seq<u8>)
    requires
        sig != scheme.signature(data),
    ensures
        scheme.verification(data, sig) == Ok::<bool, ProcessError>(false),
{
}

/// A keyed-hash signature with one byte changed no longer verifies.
pub proof fn lemma_keyed_hash_rejects_changed_byte(
    scheme: Blake3,
    data: Seq<u8>,
    at: int,
    byte: u8,
)
    requires
        0 <= at < scheme.signature(data).len(),
        byte != scheme.signature(data)[at],
    ensures
        scheme.verification(data, scheme.signature(data).update(at, byte)) == Ok::<
            bool,
            ProcessError,
        >(false),
{
    let sig = scheme.signature(data);
    assert(sig.update(at, byte)[at] != sig[at]);
}

/// Changing bytes of a public-key signature keeps its length, so checking it
/// still answers whether it verifies, and is never an error.
pub proof fn lemma_changed_signature_is_checked(
    verifier: Ed25519Verifier,
    data: Seq<u8>,
    sig: Seq<u8>,
    at: int,
    byte: u8,
)
    requires
        sig.len() == SIGNATURE_LEN,
        0 <= at < sig.len(),
    ensures
        verifier.verification(data, sig.update(at, byte)) is Ok,
{
}

/// Signing with the keyed hash depends on the key and the message alone:
/// schemes with the same key give the same message the same signature.
pub proof fn lemma_keyed_hash_is_deterministic(first: Blake3, second: Blake3, data: Seq<u8>)
    requires
        first@ == second@,
    ensures
        first.signature(data) == second.signature(data),
{
}

/// Signing with the public-key scheme depends on the secret key and the
/// message alone: signers with the same key give the same message the same
/// signature.
pub proof fn lemma_signer_is_deterministic(
    first: Ed25519Signer,
    second: Ed25519Signer,
    data: Seq<u8>,
)
    requires
        first@ == second@,
    ensures
        first.signature(data) == second.signature(data),
{
}

/// What the keyed hash signs, it verifies, in text too: where signing
/// `input` under `key` gives `raw`, every text that decodes to `raw`
/// verifies against `input` under `key`.
pub proof fn lemma_keyed_hash_text_round_trip(
    input: Seq<u8>,
    key: Seq<u8>,
    raw: Seq<u8>,
    text: Seq<char>,
)
    requires
        signature_of(input, key, TextSignFormat::Blake3) == Ok::<Seq<u8>, ProcessError>(raw),
        url_safe_decoding(text) == Some(raw),
    ensures
        verification_of(input, key, text, TextSignFormat::Blake3) == Ok::<bool, ProcessError>(
            true,
        ),
{
}

} // verus!
