//! The keyed checksum that accompanies every batch of events.

use sha2::Digest;
use vstd::prelude::*;
use vstd::string::StrSliceExecFns;

verus! {

/// What SHA-256 makes of `data`.
pub uninterp spec fn sha256(data: Seq<u8>) -> Seq<u8>;

/// Calls `sha2::Sha256::digest`. The contract claims that the digest depends on
/// the bytes alone and that it is 32 bytes long.
#[verifier::external_body]
fn sha256_digest(data: &Vec<u8>) -> (digest: Vec<u8>)
    ensures
        digest@ == sha256(data@),
        digest@.len() == 32,
{
    sha2::Sha256::digest(data).to_vec()
}

/// The lower-case hexadecimal digit of a number below sixteen.
pub open spec fn hex_digit_spec(nibble: int) -> char {
    if nibble < 10 {
        (0x30 + nibble) as char
    } else {
        (0x57 + nibble) as char
    }
}

/// Two lower-case hexadecimal digits per byte, the high one first.
pub open spec fn hex_spec(bytes: Seq<u8>) -> Seq<char> {
    Seq::new(
        2 * bytes.len(),
        |i: int|
            hex_digit_spec(
                if i % 2 == 0 {
                    bytes[i / 2] as int / 16
                } else {
                    bytes[i / 2] as int % 16
                },
            ),
    )
}

fn hex_digit(nibble: u8) -> (digit: char)
    requires
        nibble < 16,
    ensures
        digit == hex_digit_spec(nibble as int),
{
    if nibble < 10 {
        (0x30 + nibble) as char
    } else {
        (0x57 + nibble) as char
    }
}

/// Writes bytes as lower-case hexadecimal, two digits to a byte.
pub fn hex_encode(bytes: &Vec<u8>) -> (text: String)
    ensures
        text@ == hex_spec(bytes@),
{
    let mut text = String::new();
    for i in 0..bytes.len()
        invariant
            text@ == hex_spec(bytes@.take(i as int)),
    {
        text.push(hex_digit(bytes[i] / 16));
        text.push(hex_digit(bytes[i] % 16));
        assert(text@ == hex_spec(bytes@.take(i + 1)));
    }
    assert(bytes@.take(bytes@.len() as int) == bytes@);
    text
}

/// What the checksum is taken over: the seed, the payload, and the seed again.
pub open spec fn checksum_input_spec(seed: Seq<u8>, json: Seq<u8>) -> Seq<u8> {
    seed + json + seed
}

/// Lays out the bytes that the checksum is taken over.
pub fn checksum_input(seed: &Vec<u8>, json: &Vec<u8>) -> (input: Vec<u8>)
    ensures
        input@ == checksum_input_spec(seed@, json@),
{
    let mut input: Vec<u8> = Vec::new();
    input.extend_from_slice(seed.as_slice());
    input.extend_from_slice(json.as_slice());
    input.extend_from_slice(seed.as_slice());
    proof {
        assert(input@ =~= seed@ + json@ + seed@);
    }
    input
}

/// The checksum of a payload: nothing without a seed, and otherwise the
/// hexadecimal SHA-256 of the payload between two copies of the seed.
pub open spec fn json_checksum(seed: Option<Seq<u8>>, json: Seq<u8>) -> Option<Seq<char>> {
    match seed {
        None => None,
        Some(seed) => Some(hex_spec(sha256(checksum_input_spec(seed, json)))),
    }
}

/// The seed as the contracts see it.
pub open spec fn seed_view(seed: Option<Vec<u8>>) -> Option<Seq<u8>> {
    match seed {
        Some(seed) => Some(seed@),
        None => None,
    }
}

/// Computes the checksum that the server holds a payload against.
pub fn calculate_json_checksum(json: &Vec<u8>, checksum_seed: &Option<Vec<u8>>) -> (checksum:
    Option<String>)
    ensures
        match checksum {
            Some(checksum) => json_checksum(seed_view(*checksum_seed), json@) == Some(checksum@),
            None => json_checksum(seed_view(*checksum_seed), json@) is None,
        },
        checksum matches Some(checksum) ==> checksum@.len() == 64,
{
    match checksum_seed {
        None => None,
        Some(seed) => {
            let digest = sha256_digest(&checksum_input(seed, json));
            Some(hex_encode(&digest))
        },
    }
}

/// Picks the checksum seed: the one that was built in, else the one that the
/// environment offers when the program starts, else none.
pub fn select_checksum_seed(built_in: Option<String>, environment: Option<String>) -> (seed: Option<
    Vec<u8>,
>)
    ensures
        seed_view(seed) == (match (built_in, environment) {
            (Some(text), _) => Some(vstd::utf8::encode_utf8(text@)),
            (None, Some(text)) => Some(vstd::utf8::encode_utf8(text@)),
            (None, None) => None,
        }),
{
    match built_in {
        Some(text) => Some(text.as_str().as_bytes_vec()),
        None => match environment {
            Some(text) => Some(text.as_str().as_bytes_vec()),
            None => None,
        },
    }
}

/// A checksum consists of lower-case hexadecimal digits only, so it can always
/// stand in a header.
pub proof fn hex_is_printable(bytes: Seq<u8>)
    ensures
        hex_spec(bytes).len() == 2 * bytes.len(),
        forall|i: int|
            0 <= i < hex_spec(bytes).len() ==> {
                let digit = #[trigger] hex_spec(bytes)[i];
                '0' <= digit <= '9' || 'a' <= digit <= 'f'
            },
{
    assert forall|i: int| 0 <= i < hex_spec(bytes).len() implies {
        let digit = #[trigger] hex_spec(bytes)[i];
        '0' <= digit <= '9' || 'a' <= digit <= 'f'
    } by {
        assert(0 <= bytes[i / 2] < 256);
    }
}

/// Hexadecimal text determines the bytes that it was made from.
pub proof fn hex_is_injective(left: Seq<u8>, right: Seq<u8>)
    requires
        hex_spec(left) == hex_spec(right),
    ensures
        left == right,
{
    assert(hex_spec(left).len() == 2 * left.len());
    assert(hex_spec(right).len() == 2 * right.len());
    assert forall|i: int| 0 <= i < left.len() implies left[i] == right[i] by {
        assert(hex_spec(left)[2 * i] == hex_spec(right)[2 * i]);
        assert(hex_spec(left)[2 * i + 1] == hex_spec(right)[2 * i + 1]);
        assert((2 * i) / 2 == i && (2 * i) % 2 == 0);
        assert((2 * i + 1) / 2 == i && (2 * i + 1) % 2 == 1);
        let high_left = left[i] as int / 16;
        let high_right = right[i] as int / 16;
        let low_left = left[i] as int % 16;
        let low_right = right[i] as int % 16;
        assert(hex_spec(left)[2 * i] == hex_digit_spec(high_left));
        assert(hex_spec(right)[2 * i] == hex_digit_spec(high_right));
        assert(hex_spec(left)[2 * i + 1] == hex_digit_spec(low_left));
        assert(hex_spec(right)[2 * i + 1] == hex_digit_spec(low_right));
        assert(high_left == high_right);
        assert(low_left == low_right);
    }
    assert(left =~= right);
}

/// The number that a lower-case hexadecimal digit stands for; none for any other
/// character.
pub open spec fn digit_value(digit: char) -> Option<int> {
    if '0' <= digit <= '9' {
        Some(digit as int - '0' as int)
    } else if 'a' <= digit <= 'f' {
        Some(digit as int - 'a' as int + 10)
    } else {
        None
    }
}

/// Whether a text writes out bytes, each as two digits that stand for it.
pub open spec fn is_hex_of(text: Seq<char>, bytes: Seq<u8>) -> bool {
    &&& text.len() == 2 * bytes.len()
    &&& forall|i: int|
        0 <= i < bytes.len() ==> {
            let high = digit_value(text[2 * i]);
            let low = digit_value(text[2 * i + 1]);
            &&& high is Some
            &&& low is Some
            &&& high->0 * 16 + low->0 == #[trigger] bytes[i]
        }
}

/// Encoded bytes can be read back digit by digit.
pub proof fn hex_can_be_read_back(bytes: Vec<u8>, text: String)
    requires
        call_ensures(hex_encode, (&bytes,), text),
    ensures
        is_hex_of(text@, bytes@),
{
    lemma_hex_digits(bytes@);
}

/// The digits of encoded bytes stand for them.
pub(crate) proof fn lemma_hex_digits(bytes: Seq<u8>)
    ensures
        is_hex_of(hex_spec(bytes), bytes),
{
    assert forall|i: int| 0 <= i < bytes.len() implies {
        let high = digit_value(hex_spec(bytes)[2 * i]);
        let low = digit_value(hex_spec(bytes)[2 * i + 1]);
        &&& high is Some
        &&& low is Some
        &&& high->0 * 16 + low->0 == #[trigger] bytes[i]
    } by {
        assert((2 * i) / 2 == i && (2 * i) % 2 == 0);
        assert((2 * i + 1) / 2 == i && (2 * i + 1) % 2 == 1);
        assert(hex_spec(bytes)[2 * i] == hex_digit_spec(bytes[i] as int / 16));
        assert(hex_spec(bytes)[2 * i + 1] == hex_digit_spec(bytes[i] as int % 16));
    }
}

/// There is a checksum exactly if there is a seed. It writes out the SHA-256 of the
/// payload with the seed before it and behind it, whatever the two hold.
pub proof fn checksum_is_keyed_digest(
    json: Vec<u8>,
    checksum_seed: Option<Vec<u8>>,
    checksum: Option<String>,
)
    requires
        call_ensures(calculate_json_checksum, (&json, &checksum_seed), checksum),
    ensures
        checksum is Some <==> checksum_seed is Some,
        checksum matches Some(checksum) ==> is_hex_of(
            checksum@,
            sha256(checksum_seed->0@ + json@ + checksum_seed->0@),
        ),
{
    match checksum_seed {
        Some(seed) => {
            lemma_hex_digits(sha256(seed@ + json@ + seed@));
        },
        None => {},
    }
}

/// A seed that was built in comes before one that the environment offers, even an
/// empty one. Either is taken over byte for byte.
pub proof fn built_in_seed_comes_first(
    built_in: Option<String>,
    environment: Option<String>,
    seed: Option<Vec<u8>>,
)
    requires
        call_ensures(select_checksum_seed, (built_in, environment), seed),
    ensures
        seed is None <==> built_in is None && environment is None,
        built_in matches Some(text) ==> seed->0@ == vstd::utf8::encode_utf8(text@),
        built_in is None ==> (environment matches Some(text) ==> seed->0@
            == vstd::utf8::encode_utf8(text@)),
{
}

/// The bytes that a checksum is taken over begin and end with the seed, and hold
/// the payload in between.
pub proof fn payload_stands_between_seeds(seed: Vec<u8>, json: Vec<u8>, input: Vec<u8>)
    requires
        call_ensures(checksum_input, (&seed, &json), input),
    ensures
        input@.len() == 2 * seed@.len() + json@.len(),
        input@.take(seed@.len() as int) == seed@,
        input@.subrange(seed@.len() as int, (seed@.len() + json@.len()) as int) == json@,
        input@.skip((seed@.len() + json@.len()) as int) == seed@,
{
}

} // verus!
