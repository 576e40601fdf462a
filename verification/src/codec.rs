//! Base64 and data-URI handling. The base64 engine of the `base64` crate is
//! trusted through two wrappers; everything around it — locating the comma
//! separator, extracting the mime type, assembling a data URI — is verified.

use vstd::prelude::*;
use vstd::string::*;

verus! {

/// The standard padded base64 encoding of a byte sequence.
pub uninterp spec fn b64_of(data: Seq<u8>) -> Seq<char>;

/// Characters that can appear in a standard padded base64 encoding.
pub open spec fn is_b64_char(c: char) -> bool {
    ('A' <= c && c <= 'Z') || ('a' <= c && c <= 'z') || ('0' <= c && c <= '9') || c == '+' || c
        == '/' || c == '='
}

/// Relies on base64's standard padded engine: the output is a pure function
/// of the input bytes, four characters per three-byte group, drawn from the
/// standard alphabet with `=` padding.
#[verifier::external_body]
pub fn b64_encode(data: &[u8]) -> (r: String)
    ensures
        r@ == b64_of(data@),
        r@.len() == ((data@.len() + 2) / 3) * 4,
        forall|i: int| 0 <= i < r@.len() ==> is_b64_char(#[trigger] r@[i]),
{
    base64::Engine::encode(&base64::engine::general_purpose::STANDARD, data)
}

/// Relies on base64's standard padded engine: decoding succeeds exactly on
/// canonical padded encodings (this engine requires canonical padding and
/// rejects trailing bits) and returns the encoded bytes; any character
/// outside the alphabet is rejected.
#[verifier::external_body]
pub fn b64_decode(s: &str) -> (r: Result<Vec<u8>, ()>)
    ensures
        forall|x: Seq<u8>| s@ == #[trigger] b64_of(x) ==> r is Ok && r->Ok_0@ == x,
        r is Ok ==> s@ == b64_of(r->Ok_0@),
        (exists|i: int| 0 <= i < s@.len() && !is_b64_char(#[trigger] s@[i])) ==> r is Err,
{
    match base64::Engine::decode(&base64::engine::general_purpose::STANDARD, s) {
        Ok(b) => Ok(b),
        Err(_) => Err(()),
    }
}

/// Index of the first occurrence of `c` in `s`, if any.
pub open spec fn find_char(s: Seq<char>, c: char) -> Option<int>
    decreases s.len(),
{
    if s.len() == 0 {
        None
    } else if s[0] == c {
        Some(0)
    } else {
        match find_char(s.skip(1), c) {
            Some(i) => Some(i + 1),
            None => None,
        }
    }
}

/// `find_char` returns the first occurrence: the character there is `c` and
/// no earlier one is; `None` means `c` does not occur at all.
pub proof fn lemma_find_char_first(s: Seq<char>, c: char)
    ensures
        match find_char(s, c) {
            Some(i) => 0 <= i < s.len() && s[i] == c && forall|j: int| 0 <= j < i ==> s[j] != c,
            None => forall|j: int| 0 <= j < s.len() ==> s[j] != c,
        },
    decreases s.len(),
{
    if s.len() > 0 && s[0] != c {
        lemma_find_char_first(s.skip(1), c);
        match find_char(s.skip(1), c) {
            Some(i) => {
                assert(s[i + 1] == s.skip(1)[i]);
                assert forall|j: int| 0 <= j < i + 1 implies s[j] != c by {
                    if j > 0 {
                        assert(s[j] == s.skip(1)[j - 1]);
                    }
                }
            },
            None => {
                assert forall|j: int| 0 <= j < s.len() implies s[j] != c by {
                    if j > 0 {
                        assert(s[j] == s.skip(1)[j - 1]);
                    }
                }
            },
        }
    }
}

/// Any position that is a first occurrence of `c` is the one `find_char`
/// returns.
pub proof fn lemma_find_char_at(s: Seq<char>, c: char, i: int)
    requires
        0 <= i < s.len(),
        s[i] == c,
        forall|j: int| 0 <= j < i ==> s[j] != c,
    ensures
        find_char(s, c) == Some(i),
    decreases i,
{
    if i > 0 {
        lemma_find_char_at(s.skip(1), c, i - 1);
    }
}

/// Index of the first `c` in `s`, located by a character scan.
pub fn find_char_exec(s: &str, c: char) -> (r: Option<usize>)
    ensures
        match r {
            Some(i) => find_char(s@, c) == Some(i as int),
            None => find_char(s@, c) is None,
        },
{
    let len = s.unicode_len();
    let mut i: usize = 0;
    while i < len
        invariant
            0 <= i <= len,
            len == s@.len(),
            forall|j: int| 0 <= j < i ==> s@[j] != c,
        decreases len - i,
    {
        if s.get_char(i) == c {
            proof {
                lemma_find_char_at(s@, c, i as int);
            }
            return Some(i);
        }
        i = i + 1;
    }
    proof {
        lemma_find_char_first(s@, c);
    }
    None
}

/// The mime type carried by a data-URI header such as `data:image/png;base64`:
/// the text between `data:` and the first `;`, when the header has one.
pub open spec fn mime_of_header(h: Seq<char>) -> Option<Seq<char>> {
    if h.len() >= 5 && h.take(5) == "data:"@ && find_char(h, ';') is Some {
        Some(h.subrange(5, find_char(h, ';')->Some_0))
    } else {
        None
    }
}

/// The header and payload of a data URI, split at the first comma.
pub open spec fn data_uri_split(s: Seq<char>) -> Option<(Seq<char>, Seq<char>)> {
    match find_char(s, ',') {
        Some(i) => Some((s.take(i), s.skip(i + 1))),
        None => None,
    }
}

/// The exact text of a data URI assembled from a mime type and a payload.
pub open spec fn data_uri_text(mime: Seq<char>, payload: Seq<char>) -> Seq<char> {
    "data:"@ + mime + ";base64,"@ + payload
}

/// Round trip of the data-URI framing: splitting an assembled URI at its
/// first comma recovers exactly the payload, and the header yields exactly
/// the mime type, provided the mime type itself contains no comma and no
/// semicolon and the payload stays within the base64 alphabet.
pub proof fn lemma_data_uri_round_trip(mime: Seq<char>, payload: Seq<char>)
    requires
        forall|j: int| 0 <= j < mime.len() ==> mime[j] != ',' && mime[j] != ';',
        forall|j: int| 0 <= j < payload.len() ==> is_b64_char(#[trigger] payload[j]),
    ensures
        data_uri_split(data_uri_text(mime, payload)) == Some(
            (("data:"@ + mime + ";base64"@), payload),
        ),
        mime_of_header("data:"@ + mime + ";base64"@) == Some(mime),
{
    reveal_strlit("data:");
    reveal_strlit(";base64,");
    reveal_strlit(";base64");
    let s = data_uri_text(mime, payload);
    let ci: int = 5 + mime.len() as int + 7;
    assert(s[ci] == ',');
    assert forall|j: int| 0 <= j < ci implies s[j] != ',' by {
        if j < 5 {
            assert(s[j] == "data:"@[j]);
        } else if j < 5 + mime.len() {
            assert(s[j] == mime[j - 5]);
        } else {
            assert(s[j] == ";base64,"@[j - 5 - mime.len()]);
        }
    }
    lemma_find_char_at(s, ',', ci);
    assert(s.take(ci) =~= "data:"@ + mime + ";base64"@);
    assert(s.skip(ci + 1) =~= payload);
    let h = "data:"@ + mime + ";base64"@;
    assert(h.take(5) =~= "data:"@);
    let si: int = 5 + mime.len() as int;
    assert(h[si] == ';');
    assert forall|j: int| 0 <= j < si implies h[j] != ';' by {
        if j < 5 {
            assert(h[j] == "data:"@[j]);
        } else {
            assert(h[j] == mime[j - 5]);
        }
    }
    lemma_find_char_at(h, ';', si);
    assert(h.subrange(5, si) =~= mime);
}

} // verus!
