//! Random passwords over four classes of characters.

use rand::rngs::ThreadRng;
use rand::seq::SliceRandom;
use std::string::FromUtf8Error;
use vstd::prelude::*;
use vstd::utf8::*;

verus! {

/// The upper-case letters a password may hold: all but `I` and `O`.
pub const UPPERCASE: &'static str = "ABCDEFGHJKLMNPQRSTUVWXYZ";

/// The lower-case letters a password may hold: all but `l`.
pub const LOWERCASE: &'static str = "abcdefghijkmnopqrstuvwxyz";

/// The digits a password may hold: all but `0`.
pub const NUMBERS: &'static str = "123456789";

/// The symbols a password may hold.
pub const SYMBOLS: &'static str = "!@#$%^&*_";

/// The score of the strongest passwords; the weakest score 0.
pub const MAX_STRENGTH: u8 = 4;

/// Why a password has no strength estimate.
#[derive(Clone, Copy, Debug, PartialEq, Eq, Structural)]
pub enum StrengthError {
    /// The password is blank: there is nothing to estimate.
    BlankPassword,
    /// The estimator failed: it could not measure the time it took.
    Estimator,
}

impl StrengthError {
    /// The error in words.
    pub fn message(&self) -> (text: &'static str)
        ensures
            text@ == match self {
                StrengthError::BlankPassword => "a blank password has no strength"@,
                StrengthError::Estimator => "the strength could not be estimated"@,
            },
    {
        match self {
            StrengthError::BlankPassword => "a blank password has no strength",
            StrengthError::Estimator => "the strength could not be estimated",
        }
    }
}

/// `rand::rngs::ThreadRng`, handed on unread.
#[verifier::external_type_specification]
#[verifier::external_body]
pub struct ExThreadRng(ThreadRng);

/// `std::string::FromUtf8Error`, never read.
#[verifier::external_type_specification]
#[verifier::external_body]
pub struct ExFromUtf8Error(FromUtf8Error);

/// `zxcvbn::ZxcvbnError`, never read.
#[verifier::external_type_specification]
#[verifier::external_body]
pub struct ExZxcvbnError(zxcvbn::ZxcvbnError);

/// `rand::thread_rng`: a handle to this thread's random number generator.
#[verifier::external_body]
fn thread_rng() -> ThreadRng {
    rand::thread_rng()
}

/// `SliceRandom::choose` of `rand`, on bytes. Trusted: it picks one of the
/// items of `pool`, and none only where `pool` is empty. Which one it picks is
/// left open.
#[verifier::external_body]
fn choose_byte(pool: &[u8], rng: &mut ThreadRng) -> (picked: Option<u8>)
    ensures
        match picked {
            Some(byte) => pool@.contains(byte),
            None => pool@.len() == 0,
        },
{
    pool.choose(rng).copied()
}

/// `SliceRandom::shuffle` of `rand`, on bytes. Trusted: it reorders `bytes`
/// and neither adds nor drops an item. The order that comes out is left open.
#[verifier::external_body]
fn shuffle(bytes: &mut Vec<u8>, rng: &mut ThreadRng)
    ensures
        final(bytes)@.to_multiset() == old(bytes)@.to_multiset(),
{
    bytes.shuffle(rng)
}

/// `String::from_utf8`. Trusted: it succeeds exactly on valid UTF-8, and the
/// string it gives is made of the bytes it was given.
#[verifier::external_body]
fn string_from_utf8(bytes: Vec<u8>) -> (result: Result<String, FromUtf8Error>)
    ensures
        match result {
            Ok(text) => valid_utf8(bytes@) && encode_utf8(text@) == bytes@,
            Err(_) => !valid_utf8(bytes@),
        },
{
    String::from_utf8(bytes)
}

/// `zxcvbn::zxcvbn`, without user inputs, and `Entropy::score`. Trusted: the
/// score is one of 0 to 4. The estimate reads the clock and fails where that
/// fails, so nothing is claimed of when it succeeds.
#[verifier::external_body]
fn zxcvbn_score(password: &str) -> (result: Result<u8, zxcvbn::ZxcvbnError>)
    ensures
        result matches Ok(score) ==> score <= MAX_STRENGTH,
{
    match zxcvbn::zxcvbn(password, &[]) {
        Ok(entropy) => Ok(entropy.score()),
        Err(e) => Err(e),
    }
}

/// Whether a class of characters is switched on: `1` is on, anything else off.
pub open spec fn enabled(flag: u8) -> bool {
    flag == 1
}

/// How many of the four classes are switched on.
pub open spec fn class_count(uppercase: u8, lowercase: u8, number: u8, symbol: u8) -> nat {
    let upper: nat = if enabled(uppercase) { 1 } else { 0 };
    let lower: nat = if enabled(lowercase) { 1 } else { 0 };
    let digit: nat = if enabled(number) { 1 } else { 0 };
    let other: nat = if enabled(symbol) { 1 } else { 0 };
    upper + lower + digit + other
}

/// Whether a password of `length` characters can be generated: it has room
/// for one character of each class that is on, and a class to draw from
/// unless it is empty.
pub open spec fn can_generate(
    length: u8,
    uppercase: u8,
    lowercase: u8,
    number: u8,
    symbol: u8,
) -> bool {
    let classes = class_count(uppercase, lowercase, number, symbol);
    classes <= length && (length > 0 ==> classes > 0)
}

/// Whether `c` belongs to one of the classes that are switched on.
pub open spec fn in_charset(c: char, uppercase: u8, lowercase: u8, number: u8, symbol: u8) -> bool {
    ||| enabled(uppercase) && UPPERCASE@.contains(c)
    ||| enabled(lowercase) && LOWERCASE@.contains(c)
    ||| enabled(number) && NUMBERS@.contains(c)
    ||| enabled(symbol) && SYMBOLS@.contains(c)
}

/// Whether `password` holds a character of `class`.
pub open spec fn has_any(password: Seq<char>, class: Seq<char>) -> bool {
    exists|i: int| 0 <= i < password.len() && class.contains(#[trigger] password[i])
}

/// What every generated password is: `length` characters, each from a class
/// that is switched on, and at least one from each such class.
pub open spec fn is_password(
    password: Seq<char>,
    length: u8,
    uppercase: u8,
    lowercase: u8,
    number: u8,
    symbol: u8,
) -> bool {
    &&& password.len() == length
    &&& forall|i: int|
        0 <= i < password.len() ==> in_charset(
            #[trigger] password[i],
            uppercase,
            lowercase,
            number,
            symbol,
        )
    &&& enabled(uppercase) ==> has_any(password, UPPERCASE@)
    &&& enabled(lowercase) ==> has_any(password, LOWERCASE@)
    &&& enabled(number) ==> has_any(password, NUMBERS@)
    &&& enabled(symbol) ==> has_any(password, SYMBOLS@)
}

/// The characters that ASCII bytes stand for.
pub open spec fn ascii_chars(bytes: Seq<u8>) -> Seq<char> {
    Seq::new(bytes.len(), |i: int| bytes[i] as char)
}

/// Whether every byte is ASCII.
pub open spec fn is_ascii_bytes(bytes: Seq<u8>) -> bool {
    forall|i: int| 0 <= i < bytes.len() ==> #[trigger] bytes[i] < 128
}

/// ASCII bytes are valid UTF-8, and the only text they encode is their own
/// characters.
pub proof fn lemma_ascii_bytes_are_text(bytes: Seq<u8>)
    requires
        is_ascii_bytes(bytes),
    ensures
        valid_utf8(bytes),
        forall|text: Seq<char>| encode_utf8(text) == bytes ==> text == ascii_chars(bytes),
{
    let chars = ascii_chars(bytes);
    assert(is_ascii_chars(chars));
    is_ascii_chars_encode_utf8(chars);
    assert(encode_utf8(chars) =~= bytes);
    encode_utf8_valid_utf8(chars);
    assert forall|text: Seq<char>| encode_utf8(text) == bytes implies text == chars by {
        encode_utf8_decode_utf8(text);
        encode_utf8_decode_utf8(chars);
    }
}

/// Whether every byte of `bytes` is ASCII and stands for a character of a
/// class that is switched on.
spec fn drawn(bytes: Seq<u8>, uppercase: u8, lowercase: u8, number: u8, symbol: u8) -> bool {
    forall|byte: u8| #[trigger]
        bytes.contains(byte) ==> byte < 128 && in_charset(
            byte as char,
            uppercase,
            lowercase,
            number,
            symbol,
        )
}

/// Whether `bytes` holds a byte that stands for a character of `class`.
spec fn touches(bytes: Seq<u8>, class: Seq<char>) -> bool {
    exists|byte: u8| #[trigger] bytes.contains(byte) && class.contains(byte as char)
}

/// Whether `bytes` holds a byte for each class that is switched on.
spec fn touches_all(bytes: Seq<u8>, uppercase: u8, lowercase: u8, number: u8, symbol: u8) -> bool {
    &&& enabled(uppercase) ==> touches(bytes, UPPERCASE@)
    &&& enabled(lowercase) ==> touches(bytes, LOWERCASE@)
    &&& enabled(number) ==> touches(bytes, NUMBERS@)
    &&& enabled(symbol) ==> touches(bytes, SYMBOLS@)
}

/// The four classes are ASCII, and none is empty.
proof fn lemma_classes()
    ensures
        is_ascii_chars(UPPERCASE@) && UPPERCASE@.len() > 0,
        is_ascii_chars(LOWERCASE@) && LOWERCASE@.len() > 0,
        is_ascii_chars(NUMBERS@) && NUMBERS@.len() > 0,
        is_ascii_chars(SYMBOLS@) && SYMBOLS@.len() > 0,
{
    reveal_strlit("ABCDEFGHJKLMNPQRSTUVWXYZ");
    reveal_strlit("abcdefghijkmnopqrstuvwxyz");
    reveal_strlit("123456789");
    reveal_strlit("!@#$%^&*_");
}

/// The bytes of an ASCII class are ASCII, as many as its characters, and each
/// stands for one of them.
proof fn lemma_class_bytes(class: Seq<char>)
    requires
        is_ascii_chars(class),
    ensures
        encode_utf8(class).len() == class.len(),
        forall|byte: u8| #[trigger]
            encode_utf8(class).contains(byte) ==> byte < 128 && class.contains(byte as char),
{
    is_ascii_chars_encode_utf8(class);
    let bytes = encode_utf8(class);
    assert forall|byte: u8| #[trigger] bytes.contains(byte) implies byte < 128 && class.contains(
        byte as char,
    ) by {
        let i = choose|i: int| 0 <= i < bytes.len() && bytes[i] == byte;
        assert(class[i] as u8 == bytes[i]);
        assert(class[i] == byte as char);
    }
}

/// What a vector holds after one more byte.
proof fn lemma_push_contains(bytes: Seq<u8>, last: u8)
    ensures
        forall|byte: u8| #[trigger]
            bytes.push(last).contains(byte) <==> bytes.contains(byte) || byte == last,
{
    let longer = bytes.push(last);
    assert forall|byte: u8| #[trigger] longer.contains(byte) implies bytes.contains(byte) || byte
        == last by {
        let i = choose|i: int| 0 <= i < longer.len() && longer[i] == byte;
        if i < bytes.len() {
            assert(bytes[i] == byte);
        }
    }
    assert forall|byte: u8| bytes.contains(byte) || byte == last implies #[trigger]
        longer.contains(byte) by {
        if bytes.contains(byte) {
            let i = choose|i: int| 0 <= i < bytes.len() && bytes[i] == byte;
            assert(longer[i] == byte);
        } else {
            assert(longer[bytes.len() as int] == byte);
        }
    }
}

/// One more byte keeps the classes that were touched, and touches its own.
proof fn lemma_push_touches(bytes: Seq<u8>, last: u8)
    ensures
        forall|class: Seq<char>|
            touches(bytes, class) || class.contains(last as char) ==> #[trigger] touches(
                bytes.push(last),
                class,
            ),
{
    lemma_push_contains(bytes, last);
    assert forall|class: Seq<char>|
        touches(bytes, class) || class.contains(last as char) implies #[trigger] touches(
        bytes.push(last),
        class,
    ) by {
        if touches(bytes, class) {
            let byte = choose|byte: u8| #[trigger]
                bytes.contains(byte) && class.contains(byte as char);
            assert(bytes.push(last).contains(byte));
        } else {
            assert(bytes.push(last).contains(last));
        }
    }
}

/// Byte strings that hold the same bytes touch the same classes.
proof fn lemma_same_bytes_touch(before: Seq<u8>, after: Seq<u8>)
    requires
        forall|byte: u8| #[trigger] after.contains(byte) <==> before.contains(byte),
    ensures
        forall|class: Seq<char>| touches(before, class) ==> #[trigger] touches(after, class),
{
    assert forall|class: Seq<char>| touches(before, class) implies #[trigger] touches(
        after,
        class,
    ) by {
        let byte = choose|byte: u8| #[trigger]
            before.contains(byte) && class.contains(byte as char);
        assert(after.contains(byte));
    }
}

/// What two byte strings hold, one after the other.
proof fn lemma_concat_contains(left: Seq<u8>, right: Seq<u8>)
    ensures
        forall|byte: u8| #[trigger]
            (left + right).contains(byte) <==> left.contains(byte) || right.contains(byte),
{
    let both = left + right;
    assert forall|byte: u8| #[trigger] both.contains(byte) implies left.contains(byte)
        || right.contains(byte) by {
        let i = choose|i: int| 0 <= i < both.len() && both[i] == byte;
        if i < left.len() {
            assert(left[i] == byte);
        } else {
            assert(right[i - left.len()] == byte);
        }
    }
    assert forall|byte: u8| left.contains(byte) || right.contains(byte) implies #[trigger]
        both.contains(byte) by {
        if left.contains(byte) {
            let i = choose|i: int| 0 <= i < left.len() && left[i] == byte;
            assert(both[i] == byte);
        } else {
            let i = choose|i: int| 0 <= i < right.len() && right[i] == byte;
            assert(both[left.len() + i] == byte);
        }
    }
}

/// What adding a class does: the pool grows by its bytes, which are ASCII
/// and stand for its characters; the password grows by one of them, keeps
/// the classes it touched, and touches this one.
proof fn lemma_class_added(pool: Seq<u8>, class: Seq<char>, password: Seq<u8>, last: u8)
    requires
        is_ascii_chars(class),
    ensures
        forall|byte: u8| #[trigger]
            (pool + encode_utf8(class)).contains(byte) <==> pool.contains(byte) || encode_utf8(
                class,
            ).contains(byte),
        forall|byte: u8| #[trigger]
            encode_utf8(class).contains(byte) ==> byte < 128 && class.contains(byte as char),
        forall|byte: u8| #[trigger]
            password.push(last).contains(byte) <==> password.contains(byte) || byte == last,
        forall|other: Seq<char>|
            touches(password, other) || other.contains(last as char) ==> #[trigger] touches(
                password.push(last),
                other,
            ),
{
    lemma_class_bytes(class);
    lemma_concat_contains(pool, encode_utf8(class));
    lemma_push_contains(password, last);
    lemma_push_touches(password, last);
}

/// A class that the bytes touch is one that their text holds a character of.
proof fn lemma_touched_is_held(bytes: Seq<u8>)
    ensures
        forall|class: Seq<char>| #[trigger]
            touches(bytes, class) ==> has_any(ascii_chars(bytes), class),
{
    assert forall|class: Seq<char>| #[trigger] touches(bytes, class) implies has_any(
        ascii_chars(bytes),
        class,
    ) by {
        let byte = choose|byte: u8| #[trigger]
            bytes.contains(byte) && class.contains(byte as char);
        let k = choose|k: int| 0 <= k < bytes.len() && bytes[k] == byte;
        assert(ascii_chars(bytes)[k] == byte as char);
    }
}

/// One random byte of `pool`.
fn pick(pool: &[u8], rng: &mut ThreadRng) -> (byte: u8)
    requires
        pool@.len() > 0,
    ensures
        pool@.contains(byte),
{
    match choose_byte(pool, rng) {
        Some(byte) => byte,
        None => vstd::pervasive::unreached(),
    }
}

/// Adds a class to the pool, and one random character of it to the password.
fn add_class(
    class: &str,
    pool: &mut Vec<u8>,
    password: &mut Vec<u8>,
    rng: &mut ThreadRng,
) -> (byte: u8)
    requires
        is_ascii_chars(class@),
        class@.len() > 0,
    ensures
        final(pool)@ == old(pool)@ + encode_utf8(class@),
        final(password)@ == old(password)@.push(byte),
        byte < 128,
        class@.contains(byte as char),
{
    let bytes = class.as_bytes();
    proof {
        lemma_class_bytes(class@);
    }
    let ghost before = pool@;
    pool.extend_from_slice(bytes);
    assert(pool@ =~= before + encode_utf8(class@));
    let byte = pick(bytes, rng);
    password.push(byte);
    byte
}

/// The text made of ASCII bytes.
fn into_string(bytes: Vec<u8>) -> (text: String)
    requires
        is_ascii_bytes(bytes@),
    ensures
        text@ == ascii_chars(bytes@),
{
    proof {
        lemma_ascii_bytes_are_text(bytes@);
    }
    match string_from_utf8(bytes) {
        Ok(text) => text,
        Err(_) => vstd::pervasive::unreached(),
    }
}

/// Generates a password of `length` characters. A class of characters is
/// switched on by the flag `1`. The password holds one random character of
/// each class that is on, is filled up from all of them, and is shuffled.
///
/// The password cannot be shorter than the number of classes that are on,
/// and one that is not empty needs a class to draw from: `GenPassOpts`
/// tells whether that holds.
pub fn process_genpass(
    length: u8,
    uppercase: u8,
    lowercase: u8,
    number: u8,
    symbol: u8,
) -> (password: String)
    requires
        can_generate(length, uppercase, lowercase, number, symbol),
    ensures
        is_password(password@, length, uppercase, lowercase, number, symbol),
{
    let mut rng = thread_rng();
    let mut password: Vec<u8> = Vec::new();
    let mut chars: Vec<u8> = Vec::new();
    proof {
        lemma_classes();
    }

    if uppercase == 1 {
        let ghost (pool, word) = (chars@, password@);
        let byte = add_class(UPPERCASE, &mut chars, &mut password, &mut rng);
        proof {
            lemma_class_added(pool, UPPERCASE@, word, byte);
        }
    }
    if lowercase == 1 {
        let ghost (pool, word) = (chars@, password@);
        let byte = add_class(LOWERCASE, &mut chars, &mut password, &mut rng);
        proof {
            lemma_class_added(pool, LOWERCASE@, word, byte);
        }
    }
    if number == 1 {
        let ghost (pool, word) = (chars@, password@);
        let byte = add_class(NUMBERS, &mut chars, &mut password, &mut rng);
        proof {
            lemma_class_added(pool, NUMBERS@, word, byte);
        }
    }
    if symbol == 1 {
        let ghost (pool, word) = (chars@, password@);
        let byte = add_class(SYMBOLS, &mut chars, &mut password, &mut rng);
        proof {
            lemma_class_added(pool, SYMBOLS@, word, byte);
        }
    }

    let fill: u8 = length - password.len() as u8;
    let mut i: u8 = 0;
    while i < fill
        invariant
            i <= fill,
            password@.len() == length - fill + i,
            fill > 0 ==> chars@.len() > 0,
            drawn(chars@, uppercase, lowercase, number, symbol),
            drawn(password@, uppercase, lowercase, number, symbol),
            touches_all(password@, uppercase, lowercase, number, symbol),
        decreases fill - i,
    {
        let ghost word = password@;
        let byte = pick(chars.as_slice(), &mut rng);
        password.push(byte);
        proof {
            lemma_push_contains(word, byte);
            lemma_push_touches(word, byte);
        }
        i += 1;
    }

    let ghost ordered = password@;
    shuffle(&mut password, &mut rng);
    proof {
        ordered.to_multiset_ensures();
        password@.to_multiset_ensures();
        assert forall|byte: u8| #[trigger] password@.contains(byte) <==> ordered.contains(
            byte,
        ) by {
            assert(password@.to_multiset().count(byte) == ordered.to_multiset().count(byte));
        }
        lemma_same_bytes_touch(ordered, password@);
        assert(touches_all(password@, uppercase, lowercase, number, symbol));
        assert(is_ascii_bytes(password@)) by {
            assert forall|k: int| 0 <= k < password@.len() implies #[trigger] password@[k]
                < 128 by {
                assert(password@.contains(password@[k]));
            }
        }
    }
    let ghost bytes = password@;
    let text = into_string(password);
    proof {
        assert forall|k: int| 0 <= k < text@.len() implies in_charset(
            #[trigger] text@[k],
            uppercase,
            lowercase,
            number,
            symbol,
        ) by {
            assert(bytes.contains(bytes[k]));
        }
        lemma_touched_is_held(bytes);
    }
    text
}

/// A password is ASCII: its UTF-8 bytes are ASCII bytes that stand for its
/// characters, one byte each.
pub proof fn lemma_password_bytes(
    password: Seq<char>,
    length: u8,
    uppercase: u8,
    lowercase: u8,
    number: u8,
    symbol: u8,
)
    requires
        is_password(password, length, uppercase, lowercase, number, symbol),
    ensures
        is_ascii_bytes(encode_utf8(password)),
        ascii_chars(encode_utf8(password)) == password,
{
    lemma_classes();
    assert forall|i: int| 0 <= i < password.len() implies '\0' <= #[trigger] password[i]
        <= '\u{7f}' by {
        let c = password[i];
        assert(in_charset(c, uppercase, lowercase, number, symbol));
        let class = if enabled(uppercase) && UPPERCASE@.contains(c) {
            UPPERCASE@
        } else if enabled(lowercase) && LOWERCASE@.contains(c) {
            LOWERCASE@
        } else if enabled(number) && NUMBERS@.contains(c) {
            NUMBERS@
        } else {
            SYMBOLS@
        };
        let k = choose|k: int| 0 <= k < class.len() && class[k] == c;
        assert('\0' <= class[k] <= '\u{7f}');
    }
    is_ascii_chars_encode_utf8(password);
    assert(ascii_chars(encode_utf8(password)) =~= password);
}

/// What estimating the strength of `password` can answer. A blank password
/// has no strength: that is the error `BlankPassword`, and it comes for no
/// other password. Of every other password the estimator decides: it gives
/// a score from 0 for the weakest to `MAX_STRENGTH`, or it fails, which is
/// the error `Estimator`.
pub open spec fn is_strength_of(password: Seq<char>, strength: Result<u8, StrengthError>) -> bool {
    if password.len() == 0 {
        strength == Err::<u8, StrengthError>(StrengthError::BlankPassword)
    } else {
        match strength {
            Ok(score) => score <= MAX_STRENGTH,
            Err(e) => e == StrengthError::Estimator,
        }
    }
}

/// Estimates how strong `password` is. The estimator is asked about
/// passwords that are not blank, and about those only.
pub fn password_strength(password: &str) -> (strength: Result<u8, StrengthError>)
    ensures
        is_strength_of(password@, strength),
{
    if password.is_empty() {
        return Err(StrengthError::BlankPassword);
    }
    match zxcvbn_score(password) {
        Ok(score) => Ok(score),
        Err(_) => Err(StrengthError::Estimator),
    }
}

} // verus!
