//! Response headers for file delivery.
//!
//! Every file response — whether served from the cache or streamed — carries
//! the same three headers: a content type guessed from the file name's
//! extension, the exact content length, and a content disposition forcing
//! download under the original file name.

use vstd::prelude::*;

verus! {

/// The decimal digit character for `d`.
pub open spec fn spec_digit_char(d: int) -> char {
    if d == 0 {
        '0'
    } else if d == 1 {
        '1'
    } else if d == 2 {
        '2'
    } else if d == 3 {
        '3'
    } else if d == 4 {
        '4'
    } else if d == 5 {
        '5'
    } else if d == 6 {
        '6'
    } else if d == 7 {
        '7'
    } else if d == 8 {
        '8'
    } else {
        '9'
    }
}

/// The decimal representation of `n`, most significant digit first, with no
/// leading zeros (a single `'0'` for zero itself).
pub open spec fn spec_decimal(n: int) -> Seq<char>
    decreases n,
{
    if n < 10 {
        seq![spec_digit_char(n)]
    } else {
        spec_decimal(n / 10).push(spec_digit_char(n % 10))
    }
}

/// The one-character string for a decimal digit.
fn digit_str(d: u64) -> (s: &'static str)
    requires
        d < 10,
    ensures
        s@ == seq![spec_digit_char(d as int)],
{
    proof {
        reveal_strlit("0");
        reveal_strlit("1");
        reveal_strlit("2");
        reveal_strlit("3");
        reveal_strlit("4");
        reveal_strlit("5");
        reveal_strlit("6");
        reveal_strlit("7");
        reveal_strlit("8");
        reveal_strlit("9");
    }
    let s: &'static str = match d {
        0 => "0",
        1 => "1",
        2 => "2",
        3 => "3",
        4 => "4",
        5 => "5",
        6 => "6",
        7 => "7",
        8 => "8",
        _ => "9",
    };
    proof {
        assert(s@ =~= seq![spec_digit_char(d as int)]);
    }
    s
}

/// Renders `n` in decimal.
pub fn u64_to_string(n: u64) -> (s: String)
    ensures
        s@ == spec_decimal(n as int),
    decreases n,
{
    if n < 10 {
        String::from_str(digit_str(n))
    } else {
        let mut s = u64_to_string(n / 10);
        s.append(digit_str(n % 10));
        proof {
            assert(s@ =~= spec_decimal(n as int));
        }
        s
    }
}

/// Where the file name begins in `p`: one past the last separator, or the
/// start of the string when there is none.
pub open spec fn spec_name_start(p: Seq<char>) -> int
    decreases p.len(),
{
    if p.len() == 0 {
        0
    } else if p.last() == '/' {
        p.len() as int
    } else {
        spec_name_start(p.drop_last())
    }
}

/// The name a download is served under: the part of the path after the last
/// separator, or `download` when that part is empty.
pub open spec fn spec_file_name(p: Seq<char>) -> Seq<char> {
    let raw = p.subrange(spec_name_start(p), p.len() as int);
    if raw.len() == 0 {
        seq!['d', 'o', 'w', 'n', 'l', 'o', 'a', 'd']
    } else {
        raw
    }
}

/// A position with no separator at or after it, and a separator (or the
/// string's start) just before it, is where the file name begins.
pub(crate) proof fn lemma_name_start_at(p: Seq<char>, i: int)
    requires
        0 <= i <= p.len(),
        forall|j: int| i <= j < p.len() ==> p[j] != '/',
        i == 0 || p[i - 1] == '/',
    ensures
        spec_name_start(p) == i,
    decreases p.len(),
{
    if p.len() == 0 {
    } else if p.last() == '/' {
        assert(i == p.len());
    } else {
        assert(i < p.len());
        lemma_name_start_at(p.drop_last(), i);
    }
}

/// Extracts the name the file is served under.
pub fn file_name_of(path: &str) -> (name: String)
    ensures
        name@ == spec_file_name(path@),
{
    let len = path.unicode_len();
    let mut i: usize = len;
    while i > 0 && path.get_char(i - 1) != '/'
        invariant
            i <= len,
            len == path@.len(),
            forall|j: int| i <= j < len ==> path@[j] != '/',
        decreases i,
    {
        i = i - 1;
    }
    proof {
        lemma_name_start_at(path@, i as int);
    }
    if i == len {
        proof {
            reveal_strlit("download");
            assert("download"@ =~= seq!['d', 'o', 'w', 'n', 'l', 'o', 'a', 'd']);
        }
        String::from_str("download")
    } else {
        let raw = path.substring_char(i, len);
        String::from_str(raw)
    }
}

/// The headers attached to every file delivery.
pub struct ResponseHeaders {
    pub content_type: String,
    pub content_length: String,
    pub content_disposition: String,
}

/// What `mime_guess::from_path(..).first_or_octet_stream()` returns: the
/// MIME type for the path's extension.
pub uninterp spec fn mime_of(path: Seq<char>) -> Seq<char>;

/// Relies on `mime_guess::from_path(..).first_or_octet_stream()`: the MIME
/// type looked up from the file name's extension in a fixed table, with
/// `application/octet-stream` as the fallback; it depends on the path alone.
#[verifier::external_body]
fn guess_content_type(path: &str) -> (r: String)
    ensures
        r@ == mime_of(path@),
{
    mime_guess::from_path(path).first_or_octet_stream().to_string()
}

/// The disposition header value: an attachment under the file's own name.
pub open spec fn spec_disposition(path: Seq<char>) -> Seq<char> {
    "attachment; filename=\""@ + spec_file_name(path) + "\""@
}

/// Builds the headers for a file of `size` bytes at `path`.  Both delivery
/// paths use this, so cached and streamed responses for the same file carry
/// byte-identical headers.
pub fn build_headers(path: &str, size: u64) -> (h: ResponseHeaders)
    ensures
        h.content_type@ == mime_of(path@),
        h.content_length@ == spec_decimal(size as int),
        h.content_disposition@ == spec_disposition(path@),
{
    let content_type = guess_content_type(path);
    let content_length = u64_to_string(size);
    let mut disposition = String::from_str("attachment; filename=\"");
    let name = file_name_of(path);
    disposition.append(name.as_str());
    disposition.append("\"");
    ResponseHeaders { content_type, content_length, content_disposition: disposition }
}

} // verus!
