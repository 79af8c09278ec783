//! How the REST API client addresses an operation and reads the status of
//! the answer: the URL of a request is the base URL followed by the path of
//! the operation, in which each parameter is percent-encoded as one path
//! segment; a response is a success, a documented error or unexpected.
use vstd::prelude::*;
use vstd::utf8::encode_utf8;

verus! {

/// A piece of the path of a request: text that stands as it is, or the value
/// of a parameter, which is percent-encoded.
pub enum PathPart<'a> {
    Fixed(&'a str),
    Param(&'a str),
}

/// The bytes that stand unescaped in a path segment: printable ASCII other
/// than space and `"` `#` `<` `>` `?` `` ` `` `{` `}` `/` `%`.
pub open spec fn path_byte_kept(b: u8) -> bool {
    &&& 0x20 < b < 0x7f
    &&& b != 0x22 && b != 0x23 && b != 0x3c && b != 0x3e && b != 0x3f
    &&& b != 0x60 && b != 0x7b && b != 0x7d && b != 0x2f && b != 0x25
}

/// The uppercase hexadecimal digit of a value below 16.
pub open spec fn upper_hex_digit(n: u8) -> char {
    if n < 10 {
        (('0' as u8) + n) as char
    } else {
        (('A' as u8) + (n - 10)) as char
    }
}

/// The text of one byte in a path segment: the byte itself where it is kept,
/// otherwise `%` and its two uppercase hexadecimal digits.
pub open spec fn path_byte_text(b: u8) -> Seq<char> {
    if path_byte_kept(b) {
        seq![b as char]
    } else {
        seq!['%', upper_hex_digit(b / 16), upper_hex_digit(b % 16)]
    }
}

/// The percent-encoding of `bytes` as a path segment, byte by byte.
pub open spec fn path_encoded_bytes(bytes: Seq<u8>) -> Seq<char>
    decreases bytes.len(),
{
    if bytes.len() == 0 {
        Seq::<char>::empty()
    } else {
        path_byte_text(bytes[0]) + path_encoded_bytes(bytes.drop_first())
    }
}

/// The percent-encoding of the UTF-8 bytes of a parameter value.
pub open spec fn path_encoded(s: Seq<char>) -> Seq<char> {
    path_encoded_bytes(encode_utf8(s))
}

/// Percent-encodes a path parameter with `progenitor_client::encode_path`
/// (`percent_encoding::utf8_percent_encode` over the path set: the controls,
/// every non-ASCII byte, space and `"` `#` `<` `>` `?` `` ` `` `{` `}` `/`
/// `%`). Claimed: the result is that encoding of the UTF-8 bytes of `pc`.
#[verifier::external_body]
fn encode_path(pc: &str) -> (res: String)
    ensures
        res@ == path_encoded(pc@),
{
    progenitor_client::encode_path(pc)
}

/// The text that a piece contributes to the path.
pub open spec fn part_text(p: PathPart) -> Seq<char> {
    match p {
        PathPart::Fixed(s) => s@,
        PathPart::Param(s) => path_encoded(s@),
    }
}

/// The path made of `parts`, in order.
pub open spec fn path_text(parts: Seq<PathPart>) -> Seq<char>
    decreases parts.len(),
{
    if parts.len() == 0 {
        Seq::<char>::empty()
    } else {
        path_text(parts.drop_last()) + part_text(parts.last())
    }
}

/// The URL of a request: `baseurl` followed by the path made of `parts`.
pub fn request_url(baseurl: &str, parts: &[PathPart]) -> (res: String)
    ensures
        res@ == baseurl@ + path_text(parts@),
        parts@.len() > 0 ==> res@ == baseurl@ + path_text(parts@.drop_last()) + part_text(
            parts@.last(),
        ),
        parts@.len() == 0 ==> res@ == baseurl@,
{
    let mut url = String::from_str(baseurl);
    let mut i: usize = 0;
    assert(parts@.take(0) =~= Seq::<PathPart>::empty());
    assert(baseurl@ + Seq::<char>::empty() =~= baseurl@);
    while i < parts.len()
        invariant
            i <= parts@.len(),
            url@ == baseurl@ + path_text(parts@.take(i as int)),
        decreases parts@.len() - i,
    {
        match &parts[i] {
            PathPart::Fixed(s) => url.append(s),
            PathPart::Param(s) => {
                let encoded = encode_path(s);
                url.append(encoded.as_str());
            },
        }
        proof {
            assert(parts@.take(i + 1).drop_last() =~= parts@.take(i as int));
            assert(parts@.take(i + 1).last() == parts@[i as int]);
        }
        i = i + 1;
    }
    assert(parts@.take(parts@.len() as int) =~= parts@);
    assert(baseurl@ + Seq::<char>::empty() =~= baseurl@);
    proof {
        if parts@.len() > 0 {
            assert(baseurl@ + path_text(parts@) =~= baseurl@ + path_text(parts@.drop_last())
                + part_text(parts@.last()));
        }
    }
    url
}

/// Appending a part to a path appends that part's text, whatever the path
/// already holds.
pub proof fn lemma_path_text_push(parts: Seq<PathPart>, p: PathPart)
    ensures
        path_text(parts.push(p)) == path_text(parts) + part_text(p),
{
    assert(parts.push(p).drop_last() =~= parts);
}

/// The path of two lists of parts one after the other is the path of the
/// first followed by the path of the second: a path is its parts' texts
/// concatenated in order, none dropped or repeated.
pub proof fn lemma_path_text_concat(a: Seq<PathPart>, b: Seq<PathPart>)
    ensures
        path_text(a + b) == path_text(a) + path_text(b),
    decreases b.len(),
{
    if b.len() == 0 {
        assert(a + b =~= a);
        assert(path_text(a) + Seq::<char>::empty() =~= path_text(a));
    } else {
        lemma_path_text_concat(a, b.drop_last());
        assert((a + b).drop_last() =~= a + b.drop_last());
        assert((a + b).last() == b.last());
        assert(path_text(a) + path_text(b) =~= path_text(a) + path_text(b.drop_last()) + part_text(
            b.last(),
        ));
    }
}

/// The path of a single part is that part's text, and its length adds up
/// over the parts: the path is exactly as long as its parts' texts together.
pub proof fn lemma_path_text_single(p: PathPart)
    ensures
        path_text(seq![p]) == part_text(p),
{
    lemma_path_text_push(Seq::<PathPart>::empty(), p);
    assert(Seq::<PathPart>::empty().push(p) =~= seq![p]);
    assert(Seq::<char>::empty() + part_text(p) =~= part_text(p));
}

/// A path holds the text of every one of its parts, at the place where the
/// parts before it end.
pub proof fn lemma_path_text_holds_each_part(parts: Seq<PathPart>, i: int)
    requires
        0 <= i < parts.len(),
    ensures
        path_text(parts).subrange(
            path_text(parts.take(i)).len() as int,
            (path_text(parts.take(i)).len() + part_text(parts[i]).len()) as int,
        ) == part_text(parts[i]),
{
    let front = parts.take(i);
    let back = parts.skip(i);
    assert(parts =~= front + back);
    lemma_path_text_concat(front, back);
    assert(back =~= seq![parts[i]] + back.drop_first());
    lemma_path_text_concat(seq![parts[i]], back.drop_first());
    lemma_path_text_single(parts[i]);
    let pf = path_text(front);
    let pi = part_text(parts[i]);
    let pr = path_text(back.drop_first());
    assert(path_text(parts) == pf + (pi + pr));
    assert((pf + (pi + pr)).subrange(pf.len() as int, (pf.len() + pi.len()) as int) =~= pi);
}

/// How a response is read, by its status.
#[derive(Debug, Clone, Copy, PartialEq, Eq, Structural)]
pub enum ResponseOutcome {
    /// The documented success status.
    Success,
    /// A documented failure status.
    DocumentedError,
    /// Any other status.
    Unexpected,
}

/// The outcome of a response with `status` to an operation that succeeds with
/// `success` and, where it documents one, fails with `documented_error`.
pub open spec fn outcome_of(status: u16, success: u16, documented_error: Option<u16>) -> ResponseOutcome {
    if status == success {
        ResponseOutcome::Success
    } else if documented_error == Some(status) {
        ResponseOutcome::DocumentedError
    } else {
        ResponseOutcome::Unexpected
    }
}

/// How a response with `status` is read by an operation that succeeds with
/// `success` and, where it documents one, fails with `documented_error`.
pub fn response_outcome(status: u16, success: u16, documented_error: Option<u16>) -> (res:
    ResponseOutcome)
    ensures
        res == outcome_of(status, success, documented_error),
        res == ResponseOutcome::Success <==> status == success,
        res == ResponseOutcome::DocumentedError <==> (status != success && documented_error == Some(
            status,
        )),
        res == ResponseOutcome::Unexpected <==> (status != success && documented_error != Some(
            status,
        )),
{
    if status == success {
        ResponseOutcome::Success
    } else {
        match documented_error {
            Some(code) => if code == status {
                ResponseOutcome::DocumentedError
            } else {
                ResponseOutcome::Unexpected
            },
            None => ResponseOutcome::Unexpected,
        }
    }
}

/// A response is a success exactly when its status is the success status, a
/// documented error exactly when its status is the documented one and not the
/// success status, and unexpected otherwise: no other status, however close,
/// is read as success or as the documented error.
pub proof fn lemma_outcome_exact(status: u16, success: u16, documented_error: Option<u16>)
    ensures
        outcome_of(status, success, documented_error) == ResponseOutcome::Success <==> status
            == success,
        outcome_of(status, success, documented_error) == ResponseOutcome::DocumentedError
            ==> documented_error == Some(status) && status != success,
        status != success && documented_error != Some(status) ==> outcome_of(
            status,
            success,
            documented_error,
        ) == ResponseOutcome::Unexpected,
{
}

/// Two statuses read the same way unless one of them is the success status or
/// the documented one: every other status is read alike.
pub proof fn lemma_outcome_other_statuses_alike(s1: u16, s2: u16, success: u16, documented_error: Option<u16>)
    requires
        s1 != success,
        s2 != success,
        documented_error != Some(s1),
        documented_error != Some(s2),
    ensures
        outcome_of(s1, success, documented_error) == outcome_of(s2, success, documented_error),
{
}

/// Whether a response status counts as a success for the data catalog
/// operations, which read any status that is neither a client error (4xx)
/// nor a server error (5xx) as success.
pub fn catalog_status_ok(status: u16) -> (res: bool)
    ensures
        res == !(400 <= status <= 599),
{
    !(400 <= status && status <= 599)
}

/// The characters that may appear in an encoded parameter: printable ASCII
/// other than `/`, `?` and `#`, so that a parameter is one path segment and
/// starts neither a query nor a fragment.
pub open spec fn segment_char(c: char) -> bool {
    &&& (' ' as u32) < (c as u32) < 0x7f
    &&& c != '/' && c != '?' && c != '#'
}

/// Every character of an encoded parameter is a segment character.
pub proof fn lemma_encoded_param_is_one_segment(bytes: Seq<u8>)
    ensures
        forall|k: int|
            0 <= k < path_encoded_bytes(bytes).len() ==> segment_char(
                #[trigger] path_encoded_bytes(bytes)[k],
            ),
    decreases bytes.len(),
{
    if bytes.len() > 0 {
        lemma_encoded_param_is_one_segment(bytes.drop_first());
        let head = path_byte_text(bytes[0]);
        let tail = path_encoded_bytes(bytes.drop_first());
        assert forall|k: int| 0 <= k < path_encoded_bytes(bytes).len() implies segment_char(
            #[trigger] path_encoded_bytes(bytes)[k],
        ) by {
            if k < head.len() {
                assert(path_encoded_bytes(bytes)[k] == head[k]);
                if !path_byte_kept(bytes[0]) && k > 0 {
                    let n: u8 = if k == 1 { bytes[0] / 16 } else { bytes[0] % 16 };
                    assert(n < 16);
                    assert(head[k] == upper_hex_digit(n));
                }
            } else {
                assert(path_encoded_bytes(bytes)[k] == tail[k - head.len()]);
            }
        }
    }
}

/// A kept byte is one character other than `%`; an escaped byte is three
/// characters, the first of them `%`.
proof fn lemma_path_byte_text_shape(b: u8)
    ensures
        path_byte_kept(b) ==> path_byte_text(b).len() == 1 && path_byte_text(b)[0] != '%',
        !path_byte_kept(b) ==> path_byte_text(b).len() == 3 && path_byte_text(b)[0] == '%',
{
}

proof fn lemma_upper_hex_digit_injective(a: u8, b: u8)
    requires
        a < 16,
        b < 16,
        upper_hex_digit(a) == upper_hex_digit(b),
    ensures
        a == b,
{
}

/// The encoding of a byte string starts with the text of its first byte.
proof fn lemma_path_encoded_bytes_head(bytes: Seq<u8>)
    requires
        bytes.len() > 0,
    ensures
        path_encoded_bytes(bytes).len() == path_byte_text(bytes[0]).len() + path_encoded_bytes(
            bytes.drop_first(),
        ).len(),
        forall|k: int|
            0 <= k < path_byte_text(bytes[0]).len() ==> path_encoded_bytes(bytes)[k]
                == #[trigger] path_byte_text(bytes[0])[k],
        path_encoded_bytes(bytes).subrange(
            path_byte_text(bytes[0]).len() as int,
            path_encoded_bytes(bytes).len() as int,
        ) == path_encoded_bytes(bytes.drop_first()),
{
    let h = path_byte_text(bytes[0]);
    let t = path_encoded_bytes(bytes.drop_first());
    assert((h + t).subrange(h.len() as int, (h + t).len() as int) =~= t);
}

/// Distinct byte strings have distinct encodings.
pub proof fn lemma_path_encoding_injective(a: Seq<u8>, b: Seq<u8>)
    requires
        path_encoded_bytes(a) == path_encoded_bytes(b),
    ensures
        a == b,
    decreases a.len(),
{
    if a.len() == 0 {
        if b.len() > 0 {
            lemma_path_byte_text_shape(b[0]);
            lemma_path_encoded_bytes_head(b);
        }
        assert(a =~= b);
    } else {
        lemma_path_byte_text_shape(a[0]);
        lemma_path_encoded_bytes_head(a);
        if b.len() == 0 {
            assert(false);
        }
        lemma_path_byte_text_shape(b[0]);
        lemma_path_encoded_bytes_head(b);
        let ha = path_byte_text(a[0]);
        let hb = path_byte_text(b[0]);
        assert(ha[0] == hb[0]);
        if path_byte_kept(a[0]) {
            assert(ha[0] == a[0] as char);
            assert(hb[0] == b[0] as char);
        } else {
            assert(ha[1] == hb[1]);
            assert(ha[2] == hb[2]);
            lemma_upper_hex_digit_injective(a[0] / 16, b[0] / 16);
            lemma_upper_hex_digit_injective(a[0] % 16, b[0] % 16);
        }
        assert(a[0] == b[0]);
        lemma_path_encoding_injective(a.drop_first(), b.drop_first());
        assert(a =~= seq![a[0]] + a.drop_first());
        assert(b =~= seq![b[0]] + b.drop_first());
    }
}

/// Two different parameter values never give the same path segment, so two
/// requests that differ in a parameter address different resources.
pub proof fn lemma_distinct_params_distinct_segments(s: Seq<char>, t: Seq<char>)
    requires
        s != t,
    ensures
        path_encoded(s) != path_encoded(t),
{
    broadcast use vstd::utf8::encode_utf8_decode_utf8;

    if path_encoded(s) == path_encoded(t) {
        lemma_path_encoding_injective(encode_utf8(s), encode_utf8(t));
        assert(vstd::utf8::decode_utf8(encode_utf8(s)) == s);
        assert(vstd::utf8::decode_utf8(encode_utf8(t)) == t);
    }
}

/// A character that stands unescaped in a path segment: an ASCII character
/// whose byte is kept.
pub open spec fn path_char_kept(c: char) -> bool {
    '\0' <= c <= '\u{7f}' && path_byte_kept(c as u8)
}

proof fn lemma_kept_bytes_unchanged(bytes: Seq<u8>)
    requires
        forall|k: int| 0 <= k < bytes.len() ==> path_byte_kept(#[trigger] bytes[k]),
    ensures
        path_encoded_bytes(bytes).len() == bytes.len(),
        forall|k: int| 0 <= k < bytes.len() ==> path_encoded_bytes(bytes)[k] == #[trigger] bytes[k] as char,
    decreases bytes.len(),
{
    if bytes.len() > 0 {
        assert(path_byte_kept(bytes[0]));
        lemma_kept_bytes_unchanged(bytes.drop_first());
        assert forall|k: int| 0 <= k < bytes.len() implies path_encoded_bytes(bytes)[k]
            == #[trigger] bytes[k] as char by {
            if k > 0 {
                assert(bytes.drop_first()[k - 1] == bytes[k]);
            }
        }
    }
}

/// A parameter made only of characters that stand unescaped (letters,
/// digits, `-`, `.`, `_`, `~` and the like) appears in the path as it is.
pub proof fn lemma_plain_param_unchanged(s: Seq<char>)
    requires
        forall|k: int| 0 <= k < s.len() ==> path_char_kept(#[trigger] s[k]),
    ensures
        path_encoded(s) == s,
{
    broadcast use vstd::utf8::is_ascii_chars_encode_utf8;

    assert forall|k: int| 0 <= k < s.len() implies '\0' <= #[trigger] s[k] <= '\u{7f}' by {
        assert(path_char_kept(s[k]));
    }
    assert(vstd::utf8::is_ascii_chars(s));
    let bytes = encode_utf8(s);
    assert forall|k: int| 0 <= k < bytes.len() implies path_byte_kept(#[trigger] bytes[k]) by {
        assert(s[k] as u8 == bytes[k]);
    }
    lemma_kept_bytes_unchanged(bytes);
    assert forall|k: int| 0 <= k < s.len() implies path_encoded(s)[k] == s[k] by {
        assert(s[k] as u8 == bytes[k]);
    }
    assert(path_encoded(s) =~= s);
}

} // verus!
