//! Session identifiers: how they are made and which strings count as one.

use vstd::prelude::*;
use sha2::Digest;

verus! {

/// Length, in characters, of a session identifier.
pub const SESSION_ID_LEN: usize = 64;

/// A digit of lower-case hexadecimal notation: `0`-`9` or `a`-`f`.
pub open spec fn is_hex_digit(c: char) -> bool {
    ('0' <= c <= '9') || ('a' <= c <= 'f')
}

/// The shape that every session identifier has: 64 lower-case hexadecimal digits.
pub open spec fn is_session_id(s: Seq<char>) -> bool {
    &&& s.len() == SESSION_ID_LEN
    &&& forall|i: int| 0 <= i < s.len() ==> is_hex_digit(#[trigger] s[i])
}

/// The lower-case hexadecimal digit for a value below 16.
pub open spec fn lower_hex_digit(n: int) -> char {
    if n < 10 { (48 + n) as char } else { (87 + n) as char }
}

/// Lower-case hexadecimal rendering of bytes: two digits per byte, high half first.
pub open spec fn spec_lower_hex(bytes: Seq<u8>) -> Seq<char> {
    Seq::new(
        2 * bytes.len(),
        |i: int|
            if i % 2 == 0 {
                lower_hex_digit(bytes[i / 2] as int / 16)
            } else {
                lower_hex_digit(bytes[i / 2] as int % 16)
            },
    )
}

/// Appending a character to a `String` (std's `String::push`) adds it at the end.
pub assume_specification[ String::push ](string: &mut String, ch: char)
    ensures
        final(string)@ == old(string)@.push(ch),
;

fn lower_hex_char(n: u8) -> (c: char)
    requires
        n < 16,
    ensures
        c == lower_hex_digit(n as int),
{
    if n < 10 {
        (48u8 + n) as char
    } else {
        (87u8 + n) as char
    }
}

/// Renders bytes in lower-case hexadecimal, as `format!("{:x}", ..)` does for a digest.
pub fn lower_hex(bytes: &[u8]) -> (res: String)
    ensures
        res@ == spec_lower_hex(bytes@),
{
    let mut res = String::new();
    let n = bytes.len();
    for k in 0..n
        invariant
            n == bytes@.len(),
            res@.len() == 2 * k,
            forall|j: int| 0 <= j < 2 * k ==> res@[j] == spec_lower_hex(bytes@)[j],
    {
        let b = bytes[k];
        res.push(lower_hex_char(b / 16));
        res.push(lower_hex_char(b % 16));
    }
    assert(res@ =~= spec_lower_hex(bytes@));
    res
}

/// A rendering of 32 bytes in lower-case hexadecimal has the shape of a session identifier.
pub proof fn lower_hex_of_digest_is_session_id(bytes: Seq<u8>)
    requires
        bytes.len() == 32,
    ensures
        is_session_id(spec_lower_hex(bytes)),
{
    assert forall|i: int| 0 <= i < spec_lower_hex(bytes).len() implies is_hex_digit(
        #[trigger] spec_lower_hex(bytes)[i],
    ) by {
        let b = bytes[i / 2];
        assert(0 <= b / 16 < 16);
        assert(0 <= b % 16 < 16);
    }
}


/// Whether a character is a lower-case hexadecimal digit.
fn is_hex_char(c: char) -> (res: bool)
    ensures
        res == is_hex_digit(c),
{
    ('0' <= c && c <= '9') || ('a' <= c && c <= 'f')
}

/// Whether a string presented as a session identifier has the right shape:
/// exactly 64 bytes, all ASCII, all of them `0`-`9` or `a`-`f`.
pub fn is_valid_session_id(s: &str) -> (res: bool)
    ensures
        res == is_session_id(s@),
{
    broadcast use vstd::string::group_string_axioms;

    if s.len() != SESSION_ID_LEN || !s.is_ascii() {
        proof {
            if is_session_id(s@) {
                assert(vstd::string::is_ascii(s));
            }
        }
        return false;
    }
    let n = s.unicode_len();
    assert(n == SESSION_ID_LEN);
    for k in 0..n
        invariant
            n == s@.len(),
            forall|j: int| 0 <= j < k ==> is_hex_digit(#[trigger] s@[j]),
    {
        if !is_hex_char(s.get_char(k)) {
            return false;
        }
    }
    true
}

/// The SHA-256 digest of a sequence of bytes.
pub uninterp spec fn sha256(data: Seq<u8>) -> Seq<u8>;

/// SHA-256 of `data`, computed by the sha2 crate (`Sha256::new`, `input`, `result`).
///
/// Trusted: the result is the digest of exactly the given bytes, named `sha256`,
/// and it is 32 bytes long, the output size that sha2 fixes for `Sha256`.
#[verifier::external_body]
fn sha256_digest(data: &[u8]) -> (res: Vec<u8>)
    ensures
        res@ == sha256(data@),
        res@.len() == 32,
{
    let mut hasher = sha2::Sha256::new();
    hasher.input(data);
    hasher.result().to_vec()
}

/// A letter of the Latin alphabet or a decimal digit.
pub open spec fn is_ascii_alphanumeric(c: char) -> bool {
    ('A' <= c <= 'Z') || ('a' <= c <= 'z') || ('0' <= c <= '9')
}

/// A string of `len` characters drawn at random by rand's `thread_rng`
/// from the `Alphanumeric` distribution.
///
/// Trusted: whatever is drawn, it has `len` characters and each is an ASCII
/// letter or digit, the only characters that `Alphanumeric` yields. Which ones
/// come out is left unsaid: it rests on chance. rand panics if the operating
/// system's random source cannot be opened; nothing here rules that out.
#[verifier::external_body]
pub fn random_alphanumeric(len: usize) -> (res: String)
    ensures
        res@.len() == len,
        forall|i: int| 0 <= i < len ==> is_ascii_alphanumeric(#[trigger] res@[i]),
{
    rand::Rng::sample_iter(rand::thread_rng(), &rand::distributions::Alphanumeric).take(len).collect::<String>()
}

/// Number of random characters hashed into a new session identifier.
pub const SESSION_ID_RANDOM_LEN: usize = 256;

/// The session identifier derived from a user agent and a random string:
/// the lower-case hexadecimal SHA-256 digest of the UTF-8 bytes of their concatenation.
pub open spec fn spec_session_id(user_agent: Seq<char>, random: Seq<char>) -> Seq<char> {
    spec_lower_hex(sha256(vstd::utf8::encode_utf8(user_agent + random)))
}

/// Derives a session identifier from the user agent and a random string.
pub fn session_id_from(user_agent: &str, random: &str) -> (res: String)
    ensures
        res@ == spec_session_id(user_agent@, random@),
        is_session_id(res@),
{
    let mut input = String::from_str(user_agent);
    input.append(random);
    let digest = sha256_digest(input.as_str().as_bytes());
    let id = lower_hex(digest.as_slice());
    proof {
        lower_hex_of_digest_is_session_id(digest@);
    }
    id
}

/// A fresh candidate for a session identifier: the identifier derived from the
/// user agent and 256 random letters and digits.
pub fn new_session_id_candidate(user_agent: &str) -> (res: String)
    ensures
        is_session_id(res@),
        exists|random: Seq<char>|
            #![trigger spec_session_id(user_agent@, random)]
            random.len() == SESSION_ID_RANDOM_LEN
            && (forall|i: int| 0 <= i < random.len() ==> is_ascii_alphanumeric(#[trigger] random[i]))
            && res@ == spec_session_id(user_agent@, random),
{
    let random = random_alphanumeric(SESSION_ID_RANDOM_LEN);
    let id = session_id_from(user_agent, random.as_str());
    assert(id@ == spec_session_id(user_agent@, random@));
    id
}


/// The value of a lower-case hexadecimal digit.
pub open spec fn hex_digit_value(c: char) -> int {
    if '0' <= c <= '9' {
        c as int - '0' as int
    } else {
        c as int - 'a' as int + 10
    }
}

/// Lower-case hexadecimal rendering spells out every byte: two lower-case
/// hexadecimal digits per byte, in order, the first worth sixteen times its
/// value. So different bytes never render alike.
pub proof fn lower_hex_spells_each_byte(bytes: Seq<u8>)
    ensures
        spec_lower_hex(bytes).len() == 2 * bytes.len(),
        forall|i: int| 0 <= i < spec_lower_hex(bytes).len() ==> is_hex_digit(
            #[trigger] spec_lower_hex(bytes)[i],
        ),
        forall|i: int|
            0 <= i < bytes.len() ==> 16 * hex_digit_value(spec_lower_hex(bytes)[2 * i])
                + hex_digit_value(spec_lower_hex(bytes)[2 * i + 1]) == #[trigger] bytes[i],
{
    let h = spec_lower_hex(bytes);
    assert forall|i: int| 0 <= i < h.len() implies is_hex_digit(#[trigger] h[i]) by {
        let b = bytes[i / 2];
        assert(0 <= b / 16 < 16);
        assert(0 <= b % 16 < 16);
    }
    assert forall|i: int| 0 <= i < bytes.len() implies 16 * hex_digit_value(h[2 * i])
        + hex_digit_value(h[2 * i + 1]) == #[trigger] bytes[i] by {
        let b = bytes[i];
        assert((2 * i) / 2 == i);
        assert((2 * i + 1) / 2 == i);
        assert((2 * i) % 2 == 0);
        assert((2 * i + 1) % 2 == 1);
        assert(0 <= b / 16 < 16);
        assert(0 <= b % 16 < 16);
        assert(b == 16 * (b / 16) + b % 16);
    }
}

/// Renderings of different bytes differ.
pub proof fn lower_hex_is_injective(a: Seq<u8>, b: Seq<u8>)
    requires
        spec_lower_hex(a) == spec_lower_hex(b),
    ensures
        a == b,
{
    lower_hex_spells_each_byte(a);
    lower_hex_spells_each_byte(b);
    assert forall|i: int| 0 <= i < a.len() implies a[i] == b[i] by {
        assert(a[i] == 16 * hex_digit_value(spec_lower_hex(a)[2 * i]) + hex_digit_value(
            spec_lower_hex(a)[2 * i + 1],
        ));
        assert(b[i] == 16 * hex_digit_value(spec_lower_hex(b)[2 * i]) + hex_digit_value(
            spec_lower_hex(b)[2 * i + 1],
        ));
    }
    assert(a =~= b);
}

/// A session identifier is the SHA-256 digest of all of the user agent followed
/// by all of the random string, as UTF-8 bytes, in lower-case hexadecimal; so
/// it depends on their concatenation alone, and two identifiers are equal only
/// when their digests are.
pub proof fn session_id_hashes_whole_input(
    user_agent: Seq<char>,
    random: Seq<char>,
    other_agent: Seq<char>,
    other_random: Seq<char>,
)
    ensures
        spec_session_id(user_agent, random) == spec_lower_hex(
            sha256(vstd::utf8::encode_utf8(user_agent + random)),
        ),
        user_agent + random == other_agent + other_random ==> spec_session_id(user_agent, random)
            == spec_session_id(other_agent, other_random),
        spec_session_id(user_agent, random) == spec_session_id(other_agent, other_random)
            ==> sha256(vstd::utf8::encode_utf8(user_agent + random)) == sha256(
            vstd::utf8::encode_utf8(other_agent + other_random),
        ),
{
    if spec_session_id(user_agent, random) == spec_session_id(other_agent, other_random) {
        lower_hex_is_injective(
            sha256(vstd::utf8::encode_utf8(user_agent + random)),
            sha256(vstd::utf8::encode_utf8(other_agent + other_random)),
        );
    }
}

} // verus!
