//! Digests and encodings: the running MD5 of an upload, the SHA-256 image of
//! a session id, URL-safe base64, lowercase hex and percent-encoding.
use vstd::prelude::*;
use base64::Engine;
use crate::text::push_char;

verus! {

#[verifier::external_type_specification]
#[verifier::external_body]
pub struct ExMd5Context(md5::Context);

/// The bytes that an MD5 context has consumed since it was created, in order.
pub uninterp spec fn md5_consumed(ctx: md5::Context) -> Seq<u8>;

/// The MD5 digest of a byte sequence.
pub uninterp spec fn md5_digest(data: Seq<u8>) -> Seq<u8>;

/// The SHA-256 digest of a byte sequence.
pub uninterp spec fn sha256_digest(data: Seq<u8>) -> Seq<u8>;

/// The URL-safe base64 encoding of a byte sequence, without padding.
pub uninterp spec fn base64_url(data: Seq<u8>) -> Seq<char>;

/// Relies on `md5::Context::new`: a fresh context has consumed nothing.
#[verifier::external_body]
pub(crate) fn md5_start() -> (r: md5::Context)
    ensures
        md5_consumed(r) == Seq::<u8>::empty(),
{
    md5::Context::new()
}

/// Relies on `md5::Context::consume`: the bytes are appended to what the
/// context has consumed.
#[verifier::external_body]
pub(crate) fn md5_feed(ctx: &mut md5::Context, data: &[u8])
    ensures
        md5_consumed(*final(ctx)) == md5_consumed(*old(ctx)) + data@,
{
    ctx.consume(data)
}

/// Relies on `md5::Context::compute`: the 16-byte digest of everything the
/// context consumed.
#[verifier::external_body]
fn md5_finish(ctx: md5::Context) -> (r: Vec<u8>)
    ensures
        r@ == md5_digest(md5_consumed(ctx)),
        r@.len() == 16,
{
    ctx.compute().0.to_vec()
}

/// Relies on `sha2::Sha256::digest`: the 32-byte SHA-256 digest.
#[verifier::external_body]
fn sha256(data: &[u8]) -> (r: Vec<u8>)
    ensures
        r@ == sha256_digest(data@),
        r@.len() == 32,
{
    <sha2::Sha256 as sha2::Digest>::digest(data).to_vec()
}

/// Relies on base64's `URL_SAFE_NO_PAD` engine: URL-safe alphabet, no
/// padding, so four characters per three bytes and two or three for a
/// trailing one or two.
#[verifier::external_body]
fn encode_base64_url(data: &[u8]) -> (r: String)
    ensures
        r@ == base64_url(data@),
        r@.len() == (4 * data@.len() + 2) / 3,
{
    base64::engine::general_purpose::URL_SAFE_NO_PAD.encode(data)
}

/// Relies on `uuid::Uuid::new_v4`, rendered in its hyphenated form of 36
/// characters; the value is random, so nothing else is promised of it. It
/// panics only where the system offers no source of randomness.
#[verifier::external_body]
pub(crate) fn new_uuid() -> (r: String)
    ensures
        r@.len() == 36,
{
    uuid::Uuid::new_v4().to_string()
}

/// The key under which the session with this id is kept: the URL-safe
/// unpadded base64 of the SHA-256 of the id's UTF-8 bytes.
pub open spec fn session_key_spec(session_id: Seq<char>) -> Seq<char> {
    base64_url(sha256_digest(vstd::utf8::encode_utf8(session_id)))
}

/// The key under which the session with this id is kept.
pub fn session_key(session_id: &str) -> (r: String)
    ensures
        r@ == session_key_spec(session_id@),
        r@.len() == 43,
{
    let digest = sha256(session_id.as_bytes());
    encode_base64_url(digest.as_slice())
}

/// The lowercase hexadecimal digit for a value below 16.
pub open spec fn hex_lower_digit(n: u8) -> char {
    if n < 10 {
        (48 + n) as char
    } else {
        (87 + n) as char
    }
}

/// The uppercase hexadecimal digit for a value below 16.
pub open spec fn hex_upper_digit(n: u8) -> char {
    if n < 10 {
        (48 + n) as char
    } else {
        (55 + n) as char
    }
}

/// Two lowercase hex digits per byte, high nibble first.
pub open spec fn hex_lower(data: Seq<u8>) -> Seq<char>
    decreases data.len(),
{
    if data.len() == 0 {
        Seq::empty()
    } else {
        hex_lower(data.drop_last()) + seq![
            hex_lower_digit(data.last() / 16),
            hex_lower_digit(data.last() % 16),
        ]
    }
}

/// Hex doubles the length.
pub proof fn lemma_hex_lower_len(data: Seq<u8>)
    ensures
        hex_lower(data).len() == 2 * data.len(),
    decreases data.len(),
{
    if data.len() > 0 {
        lemma_hex_lower_len(data.drop_last());
    }
}

fn digit_lower(n: u8) -> (c: char)
    requires
        n < 16,
    ensures
        c == hex_lower_digit(n),
{
    if n < 10 {
        (48 + n) as char
    } else {
        (87 + n) as char
    }
}

/// The lowercase hexadecimal rendering of `data`.
pub fn to_hex_lower(data: &[u8]) -> (r: String)
    ensures
        r@ == hex_lower(data@),
{
    let mut out = String::new();
    let mut i: usize = 0;
    while i < data.len()
        invariant
            i <= data@.len(),
            out@ == hex_lower(data@.subrange(0, i as int)),
        decreases data@.len() - i,
    {
        let b = data[i];
        push_char(&mut out, digit_lower(b / 16));
        push_char(&mut out, digit_lower(b % 16));
        proof {
            let next = data@.subrange(0, i + 1);
            assert(next.drop_last() =~= data@.subrange(0, i as int));
            assert(next.last() == b);
        }
        i = i + 1;
    }
    assert(data@.subrange(0, data@.len() as int) =~= data@);
    out
}

/// The lowercase hex MD5 digest of everything `ctx` consumed.
pub fn md5_hex(ctx: md5::Context) -> (r: String)
    ensures
        r@ == hex_lower(md5_digest(md5_consumed(ctx))),
        r@.len() == 32,
{
    let d = md5_finish(ctx);
    proof {
        lemma_hex_lower_len(d@);
    }
    to_hex_lower(d.as_slice())
}

/// Whether a byte is an ASCII letter or digit.
pub open spec fn is_ascii_alphanumeric(b: u8) -> bool {
    (48 <= b <= 57) || (65 <= b <= 90) || (97 <= b <= 122)
}

/// A byte under percent-encoding with every non-alphanumeric byte escaped.
pub open spec fn percent_byte(b: u8) -> Seq<char> {
    if is_ascii_alphanumeric(b) {
        seq![b as char]
    } else {
        seq!['%', hex_upper_digit(b / 16), hex_upper_digit(b % 16)]
    }
}

/// Percent-encoding in which only ASCII letters and digits stand for
/// themselves and every other byte becomes `%XX` in uppercase hex.
pub open spec fn percent_encoded(data: Seq<u8>) -> Seq<char>
    decreases data.len(),
{
    if data.len() == 0 {
        Seq::empty()
    } else {
        percent_encoded(data.drop_last()) + percent_byte(data.last())
    }
}

/// Relies on `percent_encoding::percent_encode` with `NON_ALPHANUMERIC`:
/// non-ASCII bytes and every ASCII byte but letters and digits are written
/// as `%` and two uppercase hex digits.
#[verifier::external_body]
fn percent_encode_bytes(data: &[u8]) -> (r: String)
    ensures
        r@ == percent_encoded(data@),
{
    percent_encoding::percent_encode(data, percent_encoding::NON_ALPHANUMERIC).to_string()
}

/// The percent-encoding of the UTF-8 bytes of `s`.
pub fn percent_encode_text(s: &str) -> (r: String)
    ensures
        r@ == percent_encoded(vstd::utf8::encode_utf8(s@)),
{
    percent_encode_bytes(s.as_bytes())
}

} // verus!
