//! Framing of a raw token: its three dot-separated parts.
use vstd::prelude::*;
use crate::error::DshError;
use vstd::utf8::encode_utf8;
use crate::text::{free_of, split_on, lemma_split_on_free, lemma_split_on_free_prefix, lemma_split_on_leading_sep, lemma_split_on_nonempty};

verus! {

/// The error text when a raw token has no second part.
pub open spec fn missing_payload_text() -> Seq<char> {
    "Header and payload are missing"@
}

/// Returns the second dot-separated part of a raw token (the payload of a
/// `header.payload.signature` token); fails with a `TokenError` when the token
/// holds no dot.
pub fn extract_header_and_payload(raw_token: &str) -> (res: Result<&str, DshError>)
    ensures
        res is Ok <==> split_on(raw_token@, '.').len() > 1,
        res matches Ok(p) ==> p@ == split_on(raw_token@, '.')[1],
        res matches Err(e) ==> e matches DshError::TokenError(m) && m@ == missing_payload_text(),
{
    let n = raw_token.unicode_len();
    let mut i: usize = 0;
    while i < n
        invariant
            n == raw_token@.len(),
            i <= n,
            free_of(raw_token@.subrange(0, i as int), '.'),
        ensures
            i <= n,
            free_of(raw_token@.subrange(0, i as int), '.'),
            i < n ==> raw_token@[i as int] == '.',
        decreases n - i,
    {
        if raw_token.get_char(i) == '.' {
            break;
        }
        i = i + 1;
    }
    let ghost s = raw_token@;
    if i == n {
        proof {
            assert(s.subrange(0, n as int) =~= s);
            lemma_split_on_free(s, '.');
        }
        return Err(DshError::TokenError(String::from_str("Header and payload are missing")));
    }
    let mut j: usize = i + 1;
    while j < n
        invariant
            n == raw_token@.len(),
            i < j <= n,
            free_of(raw_token@.subrange(i + 1, j as int), '.'),
        ensures
            i < j <= n,
            free_of(raw_token@.subrange(i + 1, j as int), '.'),
            j < n ==> raw_token@[j as int] == '.',
        decreases n - j,
    {
        if raw_token.get_char(j) == '.' {
            break;
        }
        j = j + 1;
    }
    let payload = raw_token.substring_char(i + 1, j);
    proof {
        let p = s.subrange(0, i as int);
        let q = s.subrange(i + 1, j as int);
        let r = s.subrange(j as int, n as int);
        assert(s =~= p + (seq!['.'] + (q + r)));
        lemma_split_on_free_prefix(p, seq!['.'] + (q + r), '.');
        lemma_split_on_leading_sep(q + r, '.');
        lemma_split_on_free_prefix(q, r, '.');
        lemma_split_on_nonempty(r, '.');
        if j < n {
            assert(r =~= seq!['.'] + r.drop_first());
            lemma_split_on_leading_sep(r.drop_first(), '.');
        } else {
            assert(r =~= Seq::<char>::empty());
        }
        assert(split_on(r, '.')[0] =~= Seq::<char>::empty());
        assert(q + split_on(r, '.')[0] =~= q);
        let whole = split_on(s, '.');
        assert(whole.drop_first() =~= split_on(seq!['.'] + (q + r), '.').drop_first());
        assert(split_on(seq!['.'] + (q + r), '.').drop_first() =~= split_on(q + r, '.'));
        assert(whole[1] == whole.drop_first()[0]);
    }
    Ok(payload)
}

/// The bytes that standard-alphabet base64 without padding decodes `input`
/// to, or `None` where it rejects `input`.
pub uninterp spec fn base64_standard_no_pad_decoding(input: Seq<u8>) -> Option<Seq<u8>>;

/// Reads `input` to its end through `base64::read::DecoderReader` with the
/// standard alphabet and no padding (`general_purpose::STANDARD_NO_PAD`).
/// Claimed: the read succeeds exactly where the decoding of `input` exists, and
/// then yields that decoding; a failed read reports an I/O error.
#[verifier::external_body]
fn read_base64_no_pad(input: &[u8]) -> (res: Result<Vec<u8>, std::io::Error>)
    ensures
        res is Ok <==> base64_standard_no_pad_decoding(input@) is Some,
        res matches Ok(v) ==> v@ == base64_standard_no_pad_decoding(input@)->0,
{
    let engine = &base64::engine::general_purpose::STANDARD_NO_PAD;
    let mut decoder = base64::read::DecoderReader::new(input, engine);
    let mut decoded = Vec::new();
    match std::io::Read::read_to_end(&mut decoder, &mut decoded) {
        Ok(_) => Ok(decoded),
        Err(e) => Err(e),
    }
}

/// Decodes the base64 (standard alphabet, no padding) text of a token part.
pub fn decode_payload(payload: &str) -> (res: Result<Vec<u8>, DshError>)
    ensures
        res is Ok <==> base64_standard_no_pad_decoding(encode_utf8(payload@)) is Some,
        res matches Ok(v) ==> v@ == base64_standard_no_pad_decoding(encode_utf8(payload@))->0,
        res matches Err(e) ==> e is IoError,
{
    match read_base64_no_pad(payload.as_bytes()) {
        Ok(v) => Ok(v),
        Err(e) => Err(DshError::IoError(e)),
    }
}

/// What the payload of a raw token decodes to: the base64 decoding of its
/// second dot-separated part, if it has one and it decodes.
pub open spec fn token_payload_bytes(raw_token: Seq<char>) -> Option<Seq<u8>> {
    let parts = split_on(raw_token, '.');
    if parts.len() > 1 {
        base64_standard_no_pad_decoding(encode_utf8(parts[1]))
    } else {
        None
    }
}

/// The decoded payload of a raw token, which holds the token's attributes as
/// JSON. Fails with a `TokenError` when the token has no payload part, and
/// with an `IoError` when that part is not valid base64.
pub fn token_payload(raw_token: &str) -> (res: Result<Vec<u8>, DshError>)
    ensures
        res is Ok <==> token_payload_bytes(raw_token@) is Some,
        res matches Ok(v) ==> v@ == token_payload_bytes(raw_token@)->0,
        res matches Err(e) ==> (split_on(raw_token@, '.').len() <= 1 && (e matches DshError::TokenError(
            m,
        ) && m@ == missing_payload_text())) || (split_on(raw_token@, '.').len() > 1 && e is IoError),
{
    let header_payload = extract_header_and_payload(raw_token)?;
    decode_payload(header_payload)
}

} // verus!
