//! The calls into `base64`, `ring`, `rand` and `url`.  Their contracts are believed,
//! not proved: each doc comment says what is claimed of the outside function.
use vstd::prelude::*;

use base64::Engine;
use rand::RngCore;

verus! {

/// What `URL_SAFE_NO_PAD.encode` of the `base64` crate returns for some bytes.
pub uninterp spec fn base64_url_encoding(data: Seq<u8>) -> Seq<char>;

/// What `URL_SAFE_NO_PAD.decode` of the `base64` crate returns for some bytes:
/// `None` where it reports a `DecodeError`.
pub uninterp spec fn base64_url_decoding(encoded: Seq<u8>) -> Option<Seq<u8>>;

/// The SHA-256 digest of some bytes, as `ring::digest::digest(&SHA256, ..)` computes it.
pub uninterp spec fn sha256_digest(data: Seq<u8>) -> Seq<u8>;

/// The text of the URL that `url::Url::parse(base)` yields after `append_pair` has been
/// called on its `query_pairs_mut()` for each pair in turn; `None` where the parse fails.
pub uninterp spec fn url_with_query_pairs(
    base: Seq<char>,
    pairs: Seq<(Seq<char>, Seq<char>)>,
) -> Option<Seq<char>>;

/// The length of an unpadded base64 text for `n` bytes.
pub open spec fn base64_encoded_len(n: nat) -> nat {
    (n / 3) * 4 + if n % 3 == 0 {
        0nat
    } else if n % 3 == 1 {
        2nat
    } else {
        3nat
    }
}

/// A character of the URL-safe base64 alphabet: `A`-`Z`, `a`-`z`, `0`-`9`, `-`, `_`.
pub open spec fn is_url_safe_char(c: char) -> bool {
    ||| 'A' <= c <= 'Z'
    ||| 'a' <= c <= 'z'
    ||| '0' <= c <= '9'
    ||| c == '-'
    ||| c == '_'
}

/// Every character of `text` is in the URL-safe base64 alphabet.
pub open spec fn is_url_safe_text(text: Seq<char>) -> bool {
    forall|i: int| 0 <= i < text.len() ==> #[trigger] is_url_safe_char(text[i])
}

/// Encodes bytes with `base64::engine::general_purpose::URL_SAFE_NO_PAD`.  Claimed: the
/// result is the named encoding of the bytes; its length is that of unpadded base64
/// (`base64::encoded_len` with padding off); and each of its characters is one of the
/// `alphabet::URL_SAFE` symbols, since the engine writes only alphabet symbols and, with
/// padding off, no `=`.  The crate panics when the length overflows `usize`; the bound in
/// `requires` leaves those inputs out.
#[verifier::external_body]
pub(crate) fn base64_url_encode(data: &[u8]) -> (encoded: String)
    requires
        (data@.len() / 3) * 4 + 3 <= usize::MAX,
    ensures
        encoded@ == base64_url_encoding(data@),
        encoded@.len() == base64_encoded_len(data@.len()),
        is_url_safe_text(encoded@),
{
    base64::engine::general_purpose::URL_SAFE_NO_PAD.encode(data)
}

/// The error type of `base64` decoding.
#[verifier::external_type_specification]
#[verifier::external_body]
pub struct ExDecodeError(base64::DecodeError);

/// The text of a `base64` decoding error, as its `Display` writes it.  Nothing is claimed
/// of the text.
#[verifier::external_body]
pub(crate) fn decode_error_text(error: &base64::DecodeError) -> String {
    error.to_string()
}

/// Decodes bytes with `base64::engine::general_purpose::URL_SAFE_NO_PAD`.  Claimed: the
/// result is the named decoding, and an error exactly where the named decoding is `None`.
#[verifier::external_body]
pub(crate) fn base64_url_decode(encoded: &[u8]) -> (decoded: Result<Vec<u8>, base64::DecodeError>)
    ensures
        match decoded {
            Ok(bytes) => base64_url_decoding(encoded@) == Some(bytes@),
            Err(_) => base64_url_decoding(encoded@) is None,
        },
{
    base64::engine::general_purpose::URL_SAFE_NO_PAD.decode(encoded)
}

/// Hashes bytes with `ring::digest::digest(&ring::digest::SHA256, ..)`.  Claimed: the
/// result is the named digest, 32 bytes long (`SHA256.output_len`).
#[verifier::external_body]
pub(crate) fn sha256(data: &[u8]) -> (digest: Vec<u8>)
    ensures
        digest@ == sha256_digest(data@),
        digest@.len() == 32,
{
    ring::digest::digest(&ring::digest::SHA256, data).as_ref().to_vec()
}

/// Fills `count` bytes from `rand::thread_rng()` with `RngCore::fill_bytes`.  Claimed:
/// only the length.  The bytes are random, so nothing else is stated of them; `rand`
/// panics if the operating system's generator cannot seed the thread generator.
#[verifier::external_body]
pub(crate) fn random_bytes(count: usize) -> (bytes: Vec<u8>)
    ensures
        bytes@.len() == count,
{
    let mut bytes = vec![0u8; count];
    rand::thread_rng().fill_bytes(&mut bytes);
    bytes
}

/// Bytes that `application/x-www-form-urlencoded` serialization leaves as they are.
pub open spec fn form_byte_unchanged(b: u8) -> bool {
    ||| b == 0x2a
    ||| b == 0x2d
    ||| b == 0x2e
    ||| 0x30 <= b <= 0x39
    ||| 0x41 <= b <= 0x5a
    ||| b == 0x5f
    ||| 0x61 <= b <= 0x7a
}

/// An upper-case hexadecimal digit.
pub open spec fn hex_digit(d: u8) -> char {
    if d < 10 {
        (0x30 + d) as char
    } else {
        (0x41 + d - 10) as char
    }
}

/// The serialization of one byte: itself, `+` for a space, else `%` and two hex digits.
pub open spec fn form_encode_byte(b: u8) -> Seq<char> {
    if form_byte_unchanged(b) {
        seq![b as char]
    } else if b == 0x20 {
        seq!['+']
    } else {
        seq!['%', hex_digit(b / 16), hex_digit(b % 16)]
    }
}

/// The `application/x-www-form-urlencoded` byte serialization of some bytes.
pub open spec fn form_urlencoded(bytes: Seq<u8>) -> Seq<char>
    decreases bytes.len(),
{
    if bytes.len() == 0 {
        Seq::empty()
    } else {
        form_encode_byte(bytes[0]) + form_urlencoded(bytes.drop_first())
    }
}

/// Serializes bytes with `url::form_urlencoded::byte_serialize`.  Claimed: the result is
/// `form_urlencoded` of the bytes, which is what that crate's source does byte by byte
/// (`byte_serialized_unchanged`, `"+"` for a space, `percent_encode_byte` otherwise).
#[verifier::external_body]
pub(crate) fn form_urlencode(bytes: &[u8]) -> (encoded: String)
    ensures
        encoded@ == form_urlencoded(bytes@),
{
    url::form_urlencoded::byte_serialize(bytes).collect::<String>()
}

/// The pairs as sequences of characters.
pub open spec fn pairs_view(pairs: Seq<(String, String)>) -> Seq<(Seq<char>, Seq<char>)> {
    pairs.map_values(|p: (String, String)| (p.0@, p.1@))
}

/// The error type of `url::Url::parse`.
#[verifier::external_type_specification]
#[verifier::external_body]
pub struct ExUrlParseError(url::ParseError);

/// The text of a URL parse error, as its `Display` writes it.  Nothing is claimed of the
/// text.
#[verifier::external_body]
pub(crate) fn url_parse_error_text(error: &url::ParseError) -> String {
    error.to_string()
}

/// Parses `base` with `url::Url::parse`, appends each pair with `append_pair` on
/// `query_pairs_mut()`, and serializes the URL.  Claimed: the result is the named URL
/// text, and the parse error exactly where the named URL is `None`.
#[verifier::external_body]
pub(crate) fn append_query_pairs(base: &str, pairs: &Vec<(String, String)>) -> (url: Result<
    String,
    url::ParseError,
>)
    ensures
        match url {
            Ok(u) => url_with_query_pairs(base@, pairs_view(pairs@)) == Some(u@),
            Err(_) => url_with_query_pairs(base@, pairs_view(pairs@)) is None,
        },
{
    let mut url = url::Url::parse(base)?;
    {
        let mut query = url.query_pairs_mut();
        for (name, value) in pairs {
            query.append_pair(name, value);
        }
    }
    Ok(url.to_string())
}

} // verus!
