use ed25519_dalek::{Signer, SigningKey, VerifyingKey};
use rcli::process::gen_pass::{LOWERCASE, NUMBERS, SYMBOLS, UPPERCASE};
use rcli::{
    process_decode, process_keygen, process_sign, process_verify, Base64Format, Blake3,
    Ed25519Signer, Ed25519Verifier, KeyGen, ProcessError, TextSign, TextSignFormat, TextVerify,
};

const SECRET_KEY: [u8; 32] = [
    0x9d, 0x61, 0xb1, 0x9d, 0xef, 0xfd, 0x5a, 0x60, 0xba, 0x84, 0x4a, 0xf4, 0x92, 0xec, 0x2c, 0xc4,
    0x44, 0x49, 0xc5, 0x69, 0x7b, 0x32, 0x69, 0x19, 0x70, 0x3b, 0xac, 0x03, 0x1c, 0xae, 0x7f, 0x60,
];

const PUBLIC_KEY: [u8; 32] = [
    0xd7, 0x5a, 0x98, 0x01, 0x82, 0xb1, 0x0a, 0xb7, 0xd5, 0x4b, 0xfe, 0xd3, 0xc9, 0x64, 0x07, 0x3a,
    0x0e, 0xe1, 0x72, 0xf3, 0xda, 0xa6, 0x23, 0x25, 0xaf, 0x02, 0x1a, 0x68, 0xf7, 0x07, 0x51, 0x1a,
];

/// The signature that `SECRET_KEY` gives to the empty message.
const EMPTY_SIGNATURE: &str = "e5564300c360ac729086e2cc806e828a84877f1eb8e5d974d873e06522490155\
                               5fb8821590a33bacc61e39701cf9b46bd25bf5f0595bbe24655141438e7a100b";

/// What the key files hold that the tests name.
fn fixture(path: &str) -> &'static [u8] {
    match path {
        "fixtures/blake3.key" => b"0123456789abcdef0123456789abcde\n",
        "fixtures/ed25519.sk" => &SECRET_KEY,
        "fixtures/ed25519.pk" => &PUBLIC_KEY,
        _ => panic!("no such fixture: {}", path),
    }
}

fn hex(bytes: &[u8]) -> String {
    bytes.iter().map(|b| format!("{:02x}", b)).collect()
}

#[test]
fn test_blake3_sign_verify() {
    let blake3 = Blake3::try_new(fixture("fixtures/blake3.key")).unwrap();
    let data = String::from("hello1");
    let sig = blake3.sign(data.as_bytes()).unwrap();
    assert!(blake3.verify(data.as_bytes(), &sig).unwrap());
}

#[test]
fn test_ed25519_sign_verify() {
    let sk = Ed25519Signer::try_new(fixture("fixtures/ed25519.sk")).unwrap();
    let pk = Ed25519Verifier::try_new(fixture("fixtures/ed25519.pk")).unwrap();

    let data = String::from("hello1");
    let sig = sk.sign(data.as_bytes()).unwrap();
    println!("sign: {:?}", sig);
    assert!(pk.verify(data.as_bytes(), &sig).unwrap());
}

#[test]
fn test_blake3_scenario() {
    let key = fixture("fixtures/blake3.key");
    assert_eq!(key.len(), 32);
    let blake3 = Blake3::try_new(key).unwrap();
    let sig = blake3.sign(b"hello1").unwrap();
    assert_eq!(hex(&sig), "d2a1c79947a4b8506f8894cba13dc79aaa5c56a502edabfaaa143059de573eb8");
    assert_eq!(blake3.verify(b"hello1", &sig), Ok(true));
    assert_eq!(blake3.verify(b"hello2", &sig), Ok(false));
}

#[test]
fn test_blake3_signature_is_the_keyed_hash() {
    let key = [0x42u8; 32];
    let blake3 = Blake3::new(key);
    for data in [&b""[..], b"hello1", &[0u8; 2000]] {
        let sig = blake3.sign(data).unwrap();
        assert_eq!(sig.len(), 32);
        assert_eq!(sig, blake3::keyed_hash(&key, data).as_bytes().to_vec());
        assert_ne!(sig, key.to_vec());
    }
}

#[test]
fn test_blake3_sign_is_deterministic() {
    let key = fixture("fixtures/blake3.key");
    let first = Blake3::try_new(key).unwrap().sign(b"hello1").unwrap();
    let second = Blake3::try_new(key).unwrap().sign(b"hello1").unwrap();
    assert_eq!(first, second);
}

#[test]
fn test_blake3_round_trip() {
    let mut key = [0u8; 32];
    for round in 0..20u8 {
        key[usize::from(round)] = round.wrapping_mul(91).wrapping_add(3);
        let blake3 = Blake3::new(key);
        let data = vec![round; usize::from(round) * 17];
        let sig = blake3.sign(&data).unwrap();
        assert_eq!(blake3.verify(&data, &sig), Ok(true));
    }
}

#[test]
fn test_blake3_rejects_every_changed_byte() {
    let blake3 = Blake3::try_new(fixture("fixtures/blake3.key")).unwrap();
    let sig = blake3.sign(b"hello1").unwrap();
    for at in 0..sig.len() {
        for bit in 0..8 {
            let mut changed = sig.clone();
            changed[at] ^= 1 << bit;
            assert_eq!(blake3.verify(b"hello1", &changed), Ok(false));
        }
    }
}

#[test]
fn test_blake3_rejects_other_lengths() {
    let blake3 = Blake3::try_new(fixture("fixtures/blake3.key")).unwrap();
    let sig = blake3.sign(b"hello1").unwrap();
    assert_eq!(blake3.verify(b"hello1", &sig[..31]), Ok(false));
    assert_eq!(blake3.verify(b"hello1", &[]), Ok(false));
    let mut longer = sig.clone();
    longer.push(0);
    assert_eq!(blake3.verify(b"hello1", &longer), Ok(false));
}

#[test]
fn test_blake3_rejects_other_key() {
    let signer = Blake3::new([1; 32]);
    let other = Blake3::new([2; 32]);
    let sig = signer.sign(b"hello1").unwrap();
    assert_eq!(other.verify(b"hello1", &sig), Ok(false));
}

#[test]
fn test_blake3_key_length() {
    let key = b"0123456789abcdef0123456789abcde";
    assert_eq!(key.len(), 31);
    assert_eq!(Blake3::try_new(key).err(), Some(ProcessError::KeyFormat));
    assert_eq!(Blake3::try_new(&[]).err(), Some(ProcessError::KeyFormat));
    assert!(Blake3::try_new(&[0; 32]).is_ok());
}

#[test]
fn test_blake3_uses_the_first_32_bytes_of_a_longer_key() {
    let long: Vec<u8> = (0..48u8).collect();
    let from_long = Blake3::try_new(&long).unwrap();
    let from_head = Blake3::try_new(&long[..32]).unwrap();
    let sig = from_long.sign(b"hello1").unwrap();
    assert_eq!(sig, from_head.sign(b"hello1").unwrap());
    let mut other_tail = long.clone();
    other_tail[40] ^= 0xff;
    assert_eq!(Blake3::try_new(&other_tail).unwrap().verify(b"hello1", &sig), Ok(true));
    let mut other_head = long.clone();
    other_head[31] ^= 0xff;
    assert_eq!(Blake3::try_new(&other_head).unwrap().verify(b"hello1", &sig), Ok(false));
}

#[test]
fn test_ed25519_known_signature() {
    let signer = Ed25519Signer::new(SECRET_KEY);
    let sig = signer.sign(b"").unwrap();
    assert_eq!(hex(&sig), EMPTY_SIGNATURE);
    let verifier = Ed25519Verifier::try_new(&PUBLIC_KEY).unwrap();
    assert_eq!(verifier.verify(b"", &sig), Ok(true));
    assert_eq!(verifier.verify(b"hello1", &sig), Ok(false));
}

#[test]
fn test_ed25519_signature_is_the_crates() {
    let signer = Ed25519Signer::new(SECRET_KEY);
    let theirs = SigningKey::from_bytes(&SECRET_KEY);
    for data in [&b""[..], b"hello1", &[7u8; 1500]] {
        let sig = signer.sign(data).unwrap();
        assert_eq!(sig.len(), 64);
        assert_eq!(sig, theirs.sign(data).to_bytes().to_vec());
    }
}

#[test]
fn test_ed25519_sign_is_deterministic() {
    let first = Ed25519Signer::try_new(&SECRET_KEY).unwrap().sign(b"hello1").unwrap();
    let second = Ed25519Signer::try_new(&SECRET_KEY).unwrap().sign(b"hello1").unwrap();
    assert_eq!(first, second);
}

#[test]
fn test_ed25519_round_trip_with_fresh_keys() {
    for round in 0..10u8 {
        let keys = Ed25519Signer::generate().unwrap();
        let signer = Ed25519Signer::try_new(&keys[0]).unwrap();
        let verifier = Ed25519Verifier::try_new(&keys[1]).unwrap();
        let data = vec![round; usize::from(round) * 100];
        let sig = signer.sign(&data).unwrap();
        assert_eq!(verifier.verify(&data, &sig), Ok(true));
    }
}

#[test]
fn test_ed25519_rejects_every_changed_byte() {
    let signer = Ed25519Signer::new(SECRET_KEY);
    let verifier = Ed25519Verifier::try_new(&PUBLIC_KEY).unwrap();
    let sig = signer.sign(b"hello1").unwrap();
    for at in 0..sig.len() {
        let mut changed = sig.clone();
        changed[at] ^= 0x01;
        assert_eq!(verifier.verify(b"hello1", &changed), Ok(false));
        changed[at] = !sig[at];
        assert_eq!(verifier.verify(b"hello1", &changed), Ok(false));
    }
}

#[test]
fn test_ed25519_rejects_other_pair() {
    let first = Ed25519Signer::generate().unwrap();
    let second = Ed25519Signer::generate().unwrap();
    assert_ne!(first[0], second[0]);
    let sig = Ed25519Signer::try_new(&first[0]).unwrap().sign(b"hello1").unwrap();
    let verifier = Ed25519Verifier::try_new(&second[1]).unwrap();
    assert_eq!(verifier.verify(b"hello1", &sig), Ok(false));
}

#[test]
fn test_ed25519_rejects_other_data() {
    let sig = Ed25519Signer::new(SECRET_KEY).sign(b"hello1").unwrap();
    let verifier = Ed25519Verifier::try_new(&PUBLIC_KEY).unwrap();
    assert_eq!(verifier.verify(b"hello2", &sig), Ok(false));
}

#[test]
fn test_ed25519_signature_length() {
    let verifier = Ed25519Verifier::try_new(&PUBLIC_KEY).unwrap();
    let sig = Ed25519Signer::new(SECRET_KEY).sign(b"hello1").unwrap();
    assert_eq!(verifier.verify(b"hello1", &sig[..63]), Err(ProcessError::SignatureFormat));
    assert_eq!(verifier.verify(b"hello1", &[]), Err(ProcessError::SignatureFormat));
    let mut longer = sig.clone();
    longer.push(0);
    assert_eq!(verifier.verify(b"hello1", &longer), Err(ProcessError::SignatureFormat));
}

#[test]
fn test_ed25519_signer_key_length() {
    assert_eq!(Ed25519Signer::try_new(&SECRET_KEY[..31]).err(), Some(ProcessError::KeyFormat));
    assert_eq!(Ed25519Signer::try_new(&[0; 33]).err(), Some(ProcessError::KeyFormat));
    assert_eq!(Ed25519Signer::try_new(&[]).err(), Some(ProcessError::KeyFormat));
    assert!(Ed25519Signer::try_new(&[0; 32]).is_ok());
}

#[test]
fn test_ed25519_verifier_key_length() {
    assert_eq!(Ed25519Verifier::try_new(&PUBLIC_KEY[..31]).err(), Some(ProcessError::KeyFormat));
    let mut longer = PUBLIC_KEY.to_vec();
    longer.push(0);
    assert_eq!(Ed25519Verifier::try_new(&longer).err(), Some(ProcessError::KeyFormat));
    assert_eq!(Ed25519Verifier::try_new(&[]).err(), Some(ProcessError::KeyFormat));
}

#[test]
fn test_ed25519_verifier_takes_what_the_crate_takes() {
    let mut taken = 0;
    let mut refused = 0;
    for first in 0..=255u8 {
        let mut key = [0u8; 32];
        key[0] = first;
        let ours = Ed25519Verifier::try_new(&key);
        if VerifyingKey::from_bytes(&key).is_ok() {
            assert!(ours.is_ok());
            taken += 1;
        } else {
            assert_eq!(ours.err(), Some(ProcessError::KeyFormat));
            refused += 1;
        }
    }
    assert!(taken > 0);
    assert!(refused > 0);
}

#[test]
fn test_ed25519_verifier_keeps_its_key() {
    let verifier = Ed25519Verifier::try_new(&PUBLIC_KEY).unwrap();
    assert_eq!(verifier.as_bytes(), &PUBLIC_KEY);
    assert_eq!(Ed25519Verifier::new(PUBLIC_KEY).as_bytes(), &PUBLIC_KEY);
}

#[test]
fn test_ed25519_verifier_new() {
    let verifier = Ed25519Verifier::new(PUBLIC_KEY);
    let sig = Ed25519Signer::new(SECRET_KEY).sign(b"hello1").unwrap();
    assert_eq!(verifier.verify(b"hello1", &sig), Ok(true));
}

#[test]
fn test_process_sign_blake3() {
    let key = fixture("fixtures/blake3.key");
    let text = process_sign(b"hello1", key, TextSignFormat::Blake3).unwrap();
    assert_eq!(text.len(), 43);
    assert!(text.chars().all(|c| c.is_ascii_alphanumeric() || c == '-' || c == '_'));
    let raw = process_decode(&text, Base64Format::UrlSafe).unwrap();
    assert_eq!(raw, Blake3::try_new(key).unwrap().sign(b"hello1").unwrap());
    assert_eq!(process_verify(b"hello1", key, text.clone(), TextSignFormat::Blake3), Ok(true));
    assert_eq!(process_verify(b"hello2", key, text, TextSignFormat::Blake3), Ok(false));
}

#[test]
fn test_process_sign_ed25519() {
    let text = process_sign(b"", &SECRET_KEY, TextSignFormat::Ed25519).unwrap();
    assert_eq!(text.len(), 86);
    let raw = process_decode(&text, Base64Format::UrlSafe).unwrap();
    assert_eq!(hex(&raw), EMPTY_SIGNATURE);
    assert_eq!(process_verify(b"", &PUBLIC_KEY, text.clone(), TextSignFormat::Ed25519), Ok(true));
    assert_eq!(process_verify(b"hello1", &PUBLIC_KEY, text, TextSignFormat::Ed25519), Ok(false));
}

#[test]
fn test_process_sign_key_format() {
    let short = &b"0123456789abcdef0123456789abcde"[..];
    assert_eq!(process_sign(b"hello1", short, TextSignFormat::Blake3), Err(ProcessError::KeyFormat));
    assert_eq!(process_sign(b"hello1", short, TextSignFormat::Ed25519), Err(ProcessError::KeyFormat));
    let long = [0u8; 33];
    assert!(process_sign(b"hello1", &long, TextSignFormat::Blake3).is_ok());
    assert_eq!(process_sign(b"hello1", &long, TextSignFormat::Ed25519), Err(ProcessError::KeyFormat));
}

#[test]
fn test_process_verify_errors() {
    let key = fixture("fixtures/blake3.key");
    let text = process_sign(b"hello1", key, TextSignFormat::Blake3).unwrap();
    // text that is not base64 is refused before the key is looked at
    for format in [TextSignFormat::Blake3, TextSignFormat::Ed25519] {
        assert_eq!(
            process_verify(b"hello1", &[], String::from("not base64!"), format),
            Err(ProcessError::Encoding)
        );
        assert_eq!(
            process_verify(b"hello1", key, format!("{}=", text), format),
            Err(ProcessError::Encoding)
        );
    }
    // then the key is checked
    assert_eq!(
        process_verify(b"hello1", &key[..31], text.clone(), TextSignFormat::Blake3),
        Err(ProcessError::KeyFormat)
    );
    assert_eq!(
        process_verify(b"hello1", &PUBLIC_KEY[..31], text.clone(), TextSignFormat::Ed25519),
        Err(ProcessError::KeyFormat)
    );
    // then the signature: 32 bytes are no public-key signature
    assert_eq!(
        process_verify(b"hello1", &PUBLIC_KEY, text, TextSignFormat::Ed25519),
        Err(ProcessError::SignatureFormat)
    );
    // a keyed-hash signature of another length is only a wrong one
    assert_eq!(
        process_verify(b"hello1", key, String::from("aGVsbG8"), TextSignFormat::Blake3),
        Ok(false)
    );
    assert_eq!(process_verify(b"hello1", key, String::new(), TextSignFormat::Blake3), Ok(false));
}

#[test]
fn test_process_keygen_blake3() {
    let keys = process_keygen(TextSignFormat::Blake3).unwrap();
    assert_eq!(keys.len(), 1);
    assert_eq!(keys[0].len(), 32);
    let text = String::from_utf8(keys[0].clone()).unwrap();
    for class in [UPPERCASE, LOWERCASE, NUMBERS, SYMBOLS] {
        assert!(text.chars().any(|c| class.contains(c)));
    }
    assert!(text.chars().all(|c| [UPPERCASE, LOWERCASE, NUMBERS, SYMBOLS].concat().contains(c)));
    let text = process_sign(b"hello1", &keys[0], TextSignFormat::Blake3).unwrap();
    assert_eq!(process_verify(b"hello1", &keys[0], text, TextSignFormat::Blake3), Ok(true));
    assert_ne!(keys, process_keygen(TextSignFormat::Blake3).unwrap());
}

#[test]
fn test_process_keygen_ed25519() {
    let keys = process_keygen(TextSignFormat::Ed25519).unwrap();
    assert_eq!(keys.len(), 2);
    assert_eq!(keys[0].len(), 32);
    assert_eq!(keys[1].len(), 32);
    assert_ne!(keys[0], keys[1]);
    let secret: [u8; 32] = keys[0].clone().try_into().unwrap();
    assert_eq!(keys[1], SigningKey::from_bytes(&secret).verifying_key().to_bytes().to_vec());
    let text = process_sign(b"hello1", &keys[0], TextSignFormat::Ed25519).unwrap();
    assert_eq!(process_verify(b"hello1", &keys[1], text, TextSignFormat::Ed25519), Ok(true));
    assert_ne!(keys, process_keygen(TextSignFormat::Ed25519).unwrap());
}

#[test]
fn test_keygen_of_each_scheme() {
    assert_eq!(Blake3::generate().unwrap().len(), 1);
    assert_eq!(Ed25519Signer::generate().unwrap().len(), 2);
}
