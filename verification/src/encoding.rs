//! Text encodings of byte strings at the library's boundary, and the digest that stands
//! in for an identifier.

use base64::engine::general_purpose::STANDARD;
use base64::Engine;
use vstd::prelude::*;

verus! {

/// The reason `base64` gives for refusing a string.
#[verifier::external_type_specification]
#[verifier::external_body]
pub struct ExDecodeError(base64::DecodeError);

/// The lower-case hexadecimal digit of a value below sixteen.
pub open spec fn hex_digit(nibble: u8) -> char {
    seq![
        '0', '1', '2', '3', '4', '5', '6', '7', '8', '9', 'a', 'b', 'c', 'd', 'e', 'f',
    ][nibble as int]
}

/// Lower-case hexadecimal text of a byte string: two digits per byte, high digit first.
pub open spec fn hex_of(bytes: Seq<u8>) -> Seq<char>
    decreases bytes.len(),
{
    if bytes.len() == 0 {
        Seq::empty()
    } else {
        hex_of(bytes.drop_last()) + seq![hex_digit(bytes.last() / 16), hex_digit(bytes.last() % 16)]
    }
}

/// The standard base64 text, with padding, of a byte string.
pub uninterp spec fn base64_encoding(bytes: Seq<u8>) -> Seq<char>;

/// The bytes that a string stands for in standard base64 with padding, or the reason
/// why it is not such a string.
pub uninterp spec fn base64_decoding(text: Seq<char>) -> Result<Seq<u8>, base64::DecodeError>;

/// The BLAKE2b digest of the given length of the empty input, with default parameters.
pub uninterp spec fn blake2b_of_nothing(hash_length: nat) -> Seq<u8>;

/// Calls `hex::encode`.
///
/// Trusted: each byte is written as two lower-case hexadecimal digits, high digit first.
#[verifier::external_body]
pub(crate) fn hex_encode(bytes: &[u8]) -> (text: String)
    ensures
        text@ == hex_of(bytes@),
{
    hex::encode(bytes)
}

/// Calls `Engine::encode` of `base64`'s standard engine.
///
/// Trusted: the text depends on the bytes alone. Inputs whose encoded length, four
/// characters for every three bytes begun, would not fit in a `usize` are left out, as the
/// call gives up on them.
#[verifier::external_body]
pub(crate) fn base64_encode(bytes: &[u8]) -> (text: String)
    requires
        bytes@.len() / 3 * 4 + 4 <= usize::MAX,
    ensures
        text@ == base64_encoding(bytes@),
{
    STANDARD.encode(bytes)
}

/// Calls `Engine::decode` of `base64`'s standard engine on the string's bytes.
///
/// Trusted: whether the string is accepted, the bytes it stands for and the reason for
/// a refusal depend on the string alone.
#[verifier::external_body]
pub(crate) fn base64_decode(text: &str) -> (decoded: Result<Vec<u8>, base64::DecodeError>)
    ensures
        match decoded {
            Ok(bytes) => base64_decoding(text@) == Ok::<Seq<u8>, base64::DecodeError>(bytes@),
            Err(error) => base64_decoding(text@) == Err::<Seq<u8>, base64::DecodeError>(error),
        },
{
    STANDARD.decode(text.as_bytes())
}

/// Calls `blake2b_simd`'s `Params::hash_length`, `Params::to_state` and `State::finalize`
/// on fresh parameters, with no input.
///
/// Trusted: the digest has the length asked for and depends on that length alone.
#[verifier::external_body]
pub(crate) fn blake2b_empty(hash_length: usize) -> (digest: Vec<u8>)
    requires
        1 <= hash_length <= 64,
    ensures
        digest@ == blake2b_of_nothing(hash_length as nat),
        digest@.len() == hash_length,
{
    blake2b_simd::Params::new().hash_length(hash_length).to_state().finalize().as_bytes().to_vec()
}

} // verus!
