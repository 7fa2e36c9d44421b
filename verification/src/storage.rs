use vstd::prelude::*;
use vstd::utf8::{decode_utf8, encode_utf8, valid_utf8};

use crate::text::{chars_of, find_from, find_from_exec, query_start_from, query_start_from_exec};

verus! {

/// The part of a Firebase Storage download URL that comes before the bucket name.
pub const FIREBASE_MARKER: &'static str = "firebasestorage.googleapis.com/v0/b/";

/// The separator between the bucket name and the object path.
pub const OBJECT_SEPARATOR: &'static str = "/o/";

/// The value of an ASCII hexadecimal digit (either case).
pub open spec fn hex_digit_value(b: u8) -> Option<u8> {
    if 48 <= b <= 57 {
        Some((b - 48) as u8)
    } else if 97 <= b <= 102 {
        Some((b - 87) as u8)
    } else if 65 <= b <= 70 {
        Some((b - 55) as u8)
    } else {
        None
    }
}

/// Percent-decoding of bytes: every `%` followed by two hexadecimal digits
/// becomes the byte they spell; every other byte stays as it is.
pub open spec fn percent_decode_bytes(b: Seq<u8>) -> Seq<u8>
    decreases b.len(),
{
    if b.len() == 0 {
        Seq::empty()
    } else if b[0] == 37 && b.len() >= 3 && hex_digit_value(b[1]) is Some && hex_digit_value(
        b[2],
    ) is Some {
        seq![(hex_digit_value(b[1])->0 * 16 + hex_digit_value(b[2])->0) as u8]
            + percent_decode_bytes(b.skip(3))
    } else {
        seq![b[0]] + percent_decode_bytes(b.skip(1))
    }
}

/// Percent-decoding of a string's UTF-8 bytes, read back as UTF-8 text
/// (`None` when the decoded bytes are not well-formed UTF-8).
pub open spec fn percent_decode_text(s: Seq<char>) -> Option<Seq<char>> {
    let bytes = percent_decode_bytes(encode_utf8(s));
    if valid_utf8(bytes) {
        Some(decode_utf8(bytes))
    } else {
        None
    }
}

pub open spec fn opt_view(o: Option<String>) -> Option<Seq<char>> {
    match o {
        Some(s) => Some(s@),
        None => None,
    }
}

/// Calls `percent_encoding::percent_decode_str(encoded).decode_utf8()`.
/// Claimed: the result is the UTF-8 reading of the percent-decoded bytes of
/// `encoded`, and is absent exactly when those bytes are not valid UTF-8.
#[verifier::external_body]
fn percent_decode_utf8(encoded: &str) -> (r: Option<String>)
    ensures
        opt_view(r) == percent_decode_text(encoded@),
{
    match percent_encoding::percent_decode_str(encoded).decode_utf8() {
        Ok(decoded) => Some(decoded.into_owned()),
        Err(_) => None,
    }
}

/// The bucket name and the still-encoded object path of a Firebase Storage URL:
/// the bucket runs from the end of the first marker to the first `/o/` after it,
/// and the object from there to the first `?` or `#` (or the end).
pub open spec fn firebase_parts(url: Seq<char>) -> Option<(Seq<char>, Seq<char>)> {
    let marker = FIREBASE_MARKER@;
    let sep = OBJECT_SEPARATOR@;
    match find_from(url, marker, 0) {
        None => None,
        Some(m) => {
            let b = m + marker.len();
            match find_from(url, sep, b) {
                None => None,
                Some(o) => {
                    let start = o + sep.len();
                    Some((url.subrange(b, o), url.subrange(start, query_start_from(url, start))))
                },
            }
        },
    }
}

/// The `gs://` URI for a bucket and a decoded object path, when both are non-empty.
pub open spec fn gcs_uri_spec(bucket: Seq<char>, object: Option<Seq<char>>) -> Option<Seq<char>> {
    match object {
        Some(o) => if bucket.len() > 0 && o.len() > 0 {
            Some("gs://"@ + bucket + "/"@ + o)
        } else {
            None
        },
        None => None,
    }
}

/// The `gs://` URI that a Firebase Storage download URL stands for.
pub open spec fn firebase_to_gcs_spec(url: Seq<char>) -> Option<Seq<char>> {
    match firebase_parts(url) {
        None => None,
        Some((bucket, encoded)) => gcs_uri_spec(bucket, percent_decode_text(encoded)),
    }
}

/// Builds `gs://bucket/object` from the bucket and the decoded object path
/// (the decoding may have failed), when both are present and non-empty.
pub fn gcs_uri_from_parts(bucket: &str, object: Option<String>) -> (r: Option<String>)
    ensures
        opt_view(r) == gcs_uri_spec(bucket@, opt_view(object)),
{
    match object {
        Some(o) => {
            if !bucket.is_empty() && !o.as_str().is_empty() {
                let uri = String::from_str("gs://").concat(bucket).concat("/").concat(o.as_str());
                Some(uri)
            } else {
                None
            }
        },
        None => None,
    }
}

/// Converts a Firebase Storage download URL into the `gs://` URI of the object,
/// so that Vertex AI can read the object directly.
pub fn firebase_storage_url_to_gcs_uri(url: &str) -> (r: Option<String>)
    ensures
        opt_view(r) == firebase_to_gcs_spec(url@),
{
    let chars = chars_of(url);
    let marker = chars_of(FIREBASE_MARKER);
    let sep = chars_of(OBJECT_SEPARATOR);
    let m = match find_from_exec(&chars, &marker, 0) {
        Some(m) => m,
        None => return None,
    };
    proof {
        crate::text::lemma_find_from_is_first(chars@, marker@, 0);
    }
    let b = m + marker.len();
    let o = match find_from_exec(&chars, &sep, b) {
        Some(o) => o,
        None => return None,
    };
    proof {
        crate::text::lemma_find_from_is_first(chars@, sep@, b as int);
    }
    let start = o + sep.len();
    let end = query_start_from_exec(&chars, start);
    proof {
        lemma_query_start_bounds(chars@, start as int);
    }
    let bucket = url.substring_char(b, o);
    let encoded = url.substring_char(start, end);
    let decoded = percent_decode_utf8(encoded);
    gcs_uri_from_parts(bucket, decoded)
}

proof fn lemma_query_start_bounds(s: Seq<char>, from: int)
    requires
        0 <= from <= s.len(),
    ensures
        from <= query_start_from(s, from) <= s.len(),
    decreases s.len() - from,
{
    if from < s.len() && !(s[from] == '?' || s[from] == '#') {
        lemma_query_start_bounds(s, from + 1);
    }
}

/// The file URI handed to Vertex AI for a recording: the `gs://` URI when the
/// URL is a Firebase Storage download URL, the URL itself otherwise.
pub fn audio_file_uri(audio_url: &str) -> (r: String)
    ensures
        r@ == match firebase_to_gcs_spec(audio_url@) {
            Some(g) => g,
            None => audio_url@,
        },
{
    match firebase_storage_url_to_gcs_uri(audio_url) {
        Some(g) => g,
        None => String::from_str(audio_url),
    }
}

} // verus!

verus! {

/// Bytes without a `%` are left unchanged by percent-decoding.
proof fn lemma_percent_decode_without_percent(b: Seq<u8>)
    requires
        forall|i: int| 0 <= i < b.len() ==> b[i] != 37,
    ensures
        percent_decode_bytes(b) == b,
    decreases b.len(),
{
    if b.len() > 0 {
        lemma_percent_decode_without_percent(b.skip(1));
        assert(seq![b[0]] + b.skip(1) =~= b);
    }
}

proof fn lemma_scalar_bytes_without_percent(v: u32)
    requires
        vstd::utf8::is_scalar(v),
        v != 37,
    ensures
        forall|i: int|
            0 <= i < vstd::utf8::encode_scalar(v).len() ==> vstd::utf8::encode_scalar(v)[i] != 37,
{
    assert(v <= 0x7F && v != 37 ==> (v & 0x7F) as u8 != 37) by (bit_vector);
    assert((0xC0u8 | ((v >> 6) & 0x1F) as u8) != 37u8) by (bit_vector);
    assert((0xE0u8 | ((v >> 12) & 0x0F) as u8) != 37u8) by (bit_vector);
    assert((0xF0u8 | ((v >> 18) & 0x7) as u8) != 37u8) by (bit_vector);
    assert((0x80u8 | (v & 0x3F) as u8) != 37u8) by (bit_vector);
    assert((0x80u8 | ((v >> 6) & 0x3F) as u8) != 37u8) by (bit_vector);
    assert((0x80u8 | ((v >> 12) & 0x3F) as u8) != 37u8) by (bit_vector);
}

/// The UTF-8 encoding of text without `%` holds no `%` byte.
proof fn lemma_encoding_without_percent(s: Seq<char>)
    requires
        forall|i: int| 0 <= i < s.len() ==> s[i] != '%',
    ensures
        forall|i: int| 0 <= i < encode_utf8(s).len() ==> encode_utf8(s)[i] != 37,
    decreases s.len(),
{
    if s.len() > 0 {
        let c = s[0];
        vstd::utf8::char_is_scalar(c);
        if c as u32 == 37 {
            vstd::utf8::char_u32_cast(c, 37u32);
            assert(37u32 as char == '%');
        }
        lemma_scalar_bytes_without_percent(c as u32);
        lemma_encoding_without_percent(s.drop_first());
        let head = vstd::utf8::encode_scalar(c as u32);
        let tail = encode_utf8(s.drop_first());
        assert(encode_utf8(s) == head + tail);
        assert forall|i: int| 0 <= i < encode_utf8(s).len() implies encode_utf8(s)[i] != 37 by {
            if i < head.len() {
                assert(encode_utf8(s)[i] == head[i]);
            } else {
                assert(encode_utf8(s)[i] == tail[i - head.len()]);
            }
        }
    }
}

/// Text without `%` decodes to itself.
pub proof fn lemma_percent_decode_text_without_percent(s: Seq<char>)
    requires
        forall|i: int| 0 <= i < s.len() ==> s[i] != '%',
    ensures
        percent_decode_text(s) == Some(s),
{
    broadcast use vstd::utf8::encode_utf8_valid_utf8, vstd::utf8::encode_utf8_decode_utf8;

    lemma_encoding_without_percent(s);
    lemma_percent_decode_without_percent(encode_utf8(s));
}

} // verus!

verus! {

/// A Firebase Storage download URL `<prefix>firebasestorage.googleapis.com/v0/b/<bucket>/o/<object>`,
/// optionally followed by a query or a fragment, names the object `gs://<bucket>/<object>`,
/// provided the marker first occurs right after the prefix, the first `/o/` after the
/// bucket name is the separator, and the object path is one that decoding leaves as it is
/// and that holds no `?` or `#`.
pub proof fn lemma_download_url_names_gcs_object(
    prefix: Seq<char>,
    bucket: Seq<char>,
    object: Seq<char>,
    tail: Seq<char>,
)
    requires
        find_from(prefix + FIREBASE_MARKER@, FIREBASE_MARKER@, 0) == Some(prefix.len() as int),
        find_from(bucket + OBJECT_SEPARATOR@, OBJECT_SEPARATOR@, 0) == Some(bucket.len() as int),
        bucket.len() > 0,
        object.len() > 0,
        forall|i: int| 0 <= i < object.len() ==> object[i] != '?' && object[i] != '#',
        percent_decode_text(object) == Some(object),
        tail.len() == 0 || tail[0] == '?' || tail[0] == '#',
    ensures
        firebase_to_gcs_spec(prefix + FIREBASE_MARKER@ + bucket + OBJECT_SEPARATOR@ + object + tail)
            == Some("gs://"@ + bucket + "/"@ + object),
{
    let marker = FIREBASE_MARKER@;
    let sep = OBJECT_SEPARATOR@;
    let head = prefix + marker;
    let mid = bucket + sep;
    let url = prefix + marker + bucket + sep + object + tail;
    let b = head.len();
    let o = b + bucket.len();
    let start = o + sep.len();
    let end = start + object.len();
    crate::text::lemma_find_from_is_first(head, marker, 0);
    crate::text::lemma_find_from_is_first(mid, sep, 0);
    assert(url.subrange(prefix.len() as int, b as int) =~= marker);
    assert forall|j: int| 0 <= j < prefix.len() implies !crate::text::matches_at(url, marker, j) by {
        assert(!crate::text::matches_at(head, marker, j));
        if j + marker.len() <= head.len() {
            assert(url.subrange(j, j + marker.len()) =~= head.subrange(j, j + marker.len()));
        }
    }
    crate::text::lemma_find_from_first_match(url, marker, 0, prefix.len() as int);
    assert(url.subrange(o as int, start as int) =~= sep);
    assert forall|j: int| b <= j < o implies !crate::text::matches_at(url, sep, j) by {
        assert(!crate::text::matches_at(mid, sep, j - b));
        assert forall|k: int| 0 <= k < mid.len() implies url[b + k] == mid[k] by {
            if k < bucket.len() {
                assert(url[b + k] == bucket[k]);
            } else {
                assert(url[b + k] == sep[k - bucket.len()]);
            }
        }
        assert(url.subrange(j, j + sep.len()) =~= mid.subrange(j - b, j - b + sep.len()));
    }
    crate::text::lemma_find_from_first_match(url, sep, b as int, o as int);
    assert forall|j: int| start <= j < end implies url[j] != '?' && url[j] != '#' by {
        assert(url[j] == object[j - start]);
    }
    if tail.len() > 0 {
        assert(url[end as int] == tail[0]);
    }
    crate::text::lemma_query_start_at(url, start as int, end as int);
    assert(url.subrange(b as int, o as int) =~= bucket);
    assert(url.subrange(start as int, end as int) =~= object);
}

} // verus!
