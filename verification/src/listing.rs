//! Construction of a directory listing.
//!
//! The core prepares, for the external page renderer, an ordered sequence of
//! entries: directories strictly before files, each group alphabetical by
//! name bytes, a parent entry first whenever the listed directory is not the
//! root, and every entry carrying a percent-encoded URL of its path.

use vstd::prelude::*;
use vstd::utf8::encode_utf8;

verus! {

broadcast use vstd::seq_lib::group_to_multiset_ensures;

/// A directory entry as the filesystem reports it: name, kind, and size
/// (absent for directories).
pub struct RawEntry {
    pub name: String,
    pub is_dir: bool,
    pub size: Option<u64>,
}

/// The specification-level image of a raw entry.
pub struct RawEntryModel {
    pub name: Seq<char>,
    pub is_dir: bool,
    pub size: Option<u64>,
}

impl RawEntry {
    pub open spec fn model(self) -> RawEntryModel {
        RawEntryModel { name: self.name@, is_dir: self.is_dir, size: self.size }
    }
}

/// The models of a sequence of raw entries.
pub open spec fn entry_models(s: Seq<RawEntry>) -> Seq<RawEntryModel> {
    s.map_values(|e: RawEntry| e.model())
}

/// Lexicographic order on byte strings.
pub open spec fn spec_lex_le(a: Seq<u8>, b: Seq<u8>) -> bool
    decreases a.len(),
{
    if a.len() == 0 {
        true
    } else if b.len() == 0 {
        false
    } else if a[0] < b[0] {
        true
    } else if a[0] > b[0] {
        false
    } else {
        spec_lex_le(a.skip(1), b.skip(1))
    }
}

/// Listing order: directories strictly before files, then by the UTF-8
/// bytes of the name.
pub open spec fn spec_entry_le(a: RawEntryModel, b: RawEntryModel) -> bool {
    ||| (a.is_dir && !b.is_dir)
    ||| (a.is_dir == b.is_dir && spec_lex_le(encode_utf8(a.name), encode_utf8(b.name)))
}

/// The listing order holds between every earlier and every later entry.
pub open spec fn spec_entries_sorted(s: Seq<RawEntryModel>) -> bool {
    forall|i: int, j: int| 0 <= i < j < s.len() ==> spec_entry_le(s[i], s[j])
}

proof fn lemma_lex_total(a: Seq<u8>, b: Seq<u8>)
    ensures
        spec_lex_le(a, b) || spec_lex_le(b, a),
    decreases a.len(),
{
    if a.len() > 0 && b.len() > 0 && a[0] == b[0] {
        lemma_lex_total(a.skip(1), b.skip(1));
    }
}

proof fn lemma_lex_trans(a: Seq<u8>, b: Seq<u8>, c: Seq<u8>)
    requires
        spec_lex_le(a, b),
        spec_lex_le(b, c),
    ensures
        spec_lex_le(a, c),
    decreases a.len(),
{
    if a.len() > 0 && b.len() > 0 && c.len() > 0 {
        if a[0] == b[0] && b[0] == c[0] {
            lemma_lex_trans(a.skip(1), b.skip(1), c.skip(1));
        }
    }
}

proof fn lemma_entry_le_total(a: RawEntryModel, b: RawEntryModel)
    ensures
        spec_entry_le(a, b) || spec_entry_le(b, a),
{
    if a.is_dir == b.is_dir {
        lemma_lex_total(encode_utf8(a.name), encode_utf8(b.name));
    }
}

proof fn lemma_entry_le_trans(a: RawEntryModel, b: RawEntryModel, c: RawEntryModel)
    requires
        spec_entry_le(a, b),
        spec_entry_le(b, c),
    ensures
        spec_entry_le(a, c),
{
    if a.is_dir == b.is_dir && b.is_dir == c.is_dir {
        lemma_lex_trans(encode_utf8(a.name), encode_utf8(b.name), encode_utf8(c.name));
    }
}

/// Compares two byte strings lexicographically.
fn lex_le_bytes(a: &Vec<u8>, b: &Vec<u8>) -> (r: bool)
    ensures
        r == spec_lex_le(a@, b@),
{
    let mut i: usize = 0;
    proof {
        assert(a@.skip(0) =~= a@);
        assert(b@.skip(0) =~= b@);
    }
    while i < a.len() && i < b.len()
        invariant
            i <= a@.len(),
            i <= b@.len(),
            spec_lex_le(a@, b@) == spec_lex_le(a@.skip(i as int), b@.skip(i as int)),
        decreases a@.len() - i,
    {
        if a[i] < b[i] {
            return true;
        }
        if a[i] > b[i] {
            return false;
        }
        proof {
            assert(a@.skip(i as int).skip(1) =~= a@.skip(i as int + 1));
            assert(b@.skip(i as int).skip(1) =~= b@.skip(i as int + 1));
        }
        i = i + 1;
    }
    proof {
        if i == a@.len() {
            assert(a@.skip(i as int).len() == 0);
        } else {
            assert(b@.skip(i as int).len() == 0);
            assert(a@.skip(i as int).len() > 0);
        }
    }
    i == a.len()
}

/// Compares two entries in listing order.
fn entry_le(a: &RawEntry, b: &RawEntry) -> (r: bool)
    ensures
        r == spec_entry_le(a.model(), b.model()),
{
    if a.is_dir && !b.is_dir {
        true
    } else if a.is_dir == b.is_dir {
        let ab = a.name.as_str().as_bytes_vec();
        let bb = b.name.as_str().as_bytes_vec();
        lex_le_bytes(&ab, &bb)
    } else {
        false
    }
}

/// Sorts the entries into listing order: directories strictly precede
/// files, and within each group names ascend byte-wise.  The result is a
/// permutation of the input.
pub fn sort_entries(entries: Vec<RawEntry>) -> (r: Vec<RawEntry>)
    ensures
        r@.len() == entries@.len(),
        entry_models(r@).to_multiset() == entry_models(entries@).to_multiset(),
        spec_entries_sorted(entry_models(r@)),
{
    let mut rest = entries;
    let mut out: Vec<RawEntry> = Vec::new();
    proof {
        assert(entry_models(out@) =~= Seq::empty());
        assert(entry_models(out@).to_multiset().add(entry_models(rest@).to_multiset())
            =~= entry_models(entries@).to_multiset());
    }
    while rest.len() > 0
        invariant
            entry_models(out@).to_multiset().add(entry_models(rest@).to_multiset())
                == entry_models(entries@).to_multiset(),
            out@.len() + rest@.len() == entries@.len(),
            spec_entries_sorted(entry_models(out@)),
            forall|i: int, j: int| 0 <= i < out@.len() && 0 <= j < rest@.len()
                ==> spec_entry_le(entry_models(out@)[i], entry_models(rest@)[j]),
        decreases rest@.len(),
    {
        // Find a minimal remaining entry.
        let mut best: usize = 0;
        let mut k: usize = 1;
        proof {
            lemma_entry_le_total(entry_models(rest@)[0], entry_models(rest@)[0]);
        }
        while k < rest.len()
            invariant
                rest@.len() > 0,
                best < k,
                k <= rest@.len(),
                forall|j: int| 0 <= j < k ==> spec_entry_le(
                    entry_models(rest@)[best as int],
                    entry_models(rest@)[j],
                ),
            decreases rest@.len() - k,
        {
            if !entry_le(&rest[best], &rest[k]) {
                proof {
                    lemma_entry_le_total(
                        entry_models(rest@)[best as int],
                        entry_models(rest@)[k as int],
                    );
                    assert forall|j: int| 0 <= j < k + 1 implies spec_entry_le(
                        entry_models(rest@)[k as int],
                        entry_models(rest@)[j],
                    ) by {
                        if j < k {
                            lemma_entry_le_trans(
                                entry_models(rest@)[k as int],
                                entry_models(rest@)[best as int],
                                entry_models(rest@)[j],
                            );
                        } else {
                            lemma_entry_le_total(
                                entry_models(rest@)[k as int],
                                entry_models(rest@)[k as int],
                            );
                        }
                    }
                }
                best = k;
            }
            k = k + 1;
        }
        let ghost old_rest = rest@;
        let ghost old_out = out@;
        let picked = rest.remove(best);
        proof {
            assert(entry_models(old_rest.remove(best as int))
                =~= entry_models(old_rest).remove(best as int));
            assert(entry_models(old_rest).remove(best as int).to_multiset()
                =~= entry_models(old_rest).to_multiset().remove(picked.model()));
        }
        out.push(picked);
        proof {
            assert(entry_models(old_out.push(picked)) =~= entry_models(old_out).push(
                picked.model(),
            ));
            assert(entry_models(out@).to_multiset() =~= entry_models(old_out).to_multiset()
                .insert(picked.model()));
            assert(entry_models(out@).to_multiset().add(entry_models(rest@).to_multiset())
                =~= entry_models(old_out).to_multiset().add(
                entry_models(old_rest).to_multiset(),
            ));
            // Ordering: the picked entry follows everything placed before it
            // and precedes everything still waiting.
            assert forall|i: int, j: int|
                0 <= i < out@.len() && 0 <= j < rest@.len() implies spec_entry_le(
                entry_models(out@)[i],
                entry_models(rest@)[j],
            ) by {
                let jj = if j < best as int { j } else { j + 1 };
                assert(entry_models(rest@)[j] == entry_models(old_rest)[jj]);
                if i < out@.len() - 1 {
                    assert(entry_models(out@)[i] == entry_models(old_out)[i]);
                } else {
                    assert(entry_models(out@)[i] == picked.model());
                }
            }
            assert(spec_entries_sorted(entry_models(out@)));
        }
    }
    out
}

/// `s` with every trailing separator removed.
pub open spec fn spec_trim_trailing(s: Seq<char>) -> Seq<char>
    decreases s.len(),
{
    if s.len() > 0 && s.last() == '/' {
        spec_trim_trailing(s.drop_last())
    } else {
        s
    }
}

proof fn lemma_trim_at(s: Seq<char>, k: int)
    requires
        0 <= k <= s.len(),
        forall|j: int| k <= j < s.len() ==> s[j] == '/',
        k == 0 || s[k - 1] != '/',
    ensures
        spec_trim_trailing(s) == s.subrange(0, k),
    decreases s.len(),
{
    if s.len() == 0 {
        assert(s.subrange(0, 0) =~= s);
    } else if s.last() == '/' {
        assert(k < s.len());
        lemma_trim_at(s.drop_last(), k);
        assert(s.drop_last().subrange(0, k) =~= s.subrange(0, k));
    } else {
        assert(k == s.len());
        assert(s.subrange(0, k) =~= s);
    }
}

/// Removes trailing separators.
fn trim_trailing_slashes(s: &str) -> (r: String)
    ensures
        r@ == spec_trim_trailing(s@),
{
    let len = s.unicode_len();
    let mut k: usize = len;
    while k > 0 && s.get_char(k - 1) == '/'
        invariant
            k <= len,
            len == s@.len(),
            forall|j: int| k <= j < len ==> s@[j] == '/',
        decreases k,
    {
        k = k - 1;
    }
    proof {
        lemma_trim_at(s@, k as int);
    }
    String::from_str(s.substring_char(0, k))
}

/// The path of a listed entry: the name alone at the root, else the current
/// path, without trailing separators, then the name.
pub open spec fn spec_entry_path(current: Seq<char>, name: Seq<char>) -> Seq<char> {
    if current.len() == 0 {
        name
    } else {
        spec_trim_trailing(current) + seq!['/'] + name
    }
}

/// The parent of the current path: everything before the last separator of
/// the trimmed path, empty when there is none.
pub open spec fn spec_parent_path(current: Seq<char>) -> Seq<char> {
    if current.len() == 0 {
        Seq::empty()
    } else {
        let t = spec_trim_trailing(current);
        let ns = crate::headers::spec_name_start(t);
        if ns == 0 {
            Seq::empty()
        } else {
            t.subrange(0, ns - 1)
        }
    }
}

/// What `percent_encoding::utf8_percent_encode` with the `NON_ALPHANUMERIC`
/// set returns for a given input.
pub uninterp spec fn percent_encoded(s: Seq<char>) -> Seq<char>;

/// Relies on `percent_encoding::utf8_percent_encode` with the
/// `NON_ALPHANUMERIC` set: every UTF-8 byte outside ASCII alphanumerics
/// becomes `%` plus two hexadecimal digits, alphanumerics stand for
/// themselves; the result depends on the input characters alone, and an
/// empty input stays empty.  Percent-decoding inverts it: the escapes it
/// writes decode back to the input's bytes (valid UTF-8), and the
/// alphanumerics it passes through contain no `%`.
#[verifier::external_body]
fn percent_encode_component(s: &str) -> (r: String)
    ensures
        r@ == percent_encoded(s@),
        s@.len() == 0 ==> r@.len() == 0,
        crate::resolve::percent_decoded(r@) == Some(s@),
{
    percent_encoding::utf8_percent_encode(s, percent_encoding::NON_ALPHANUMERIC).to_string()
}

/// A listed entry as handed to the page renderer: name, kind, size, and the
/// URL the entry links to.
pub struct FileEntry {
    pub name: String,
    pub is_dir: bool,
    pub size: Option<u64>,
    pub url: String,
}

/// The raw-entry image of a listed entry.
pub open spec fn file_entry_model(e: FileEntry) -> RawEntryModel {
    RawEntryModel { name: e.name@, is_dir: e.is_dir, size: e.size }
}

/// Builds the listed entry for one raw entry: the fields carry over, and
/// the URL is the percent-encoded entry path under a leading separator.
/// Decoding the URL after that separator yields the entry path again, so
/// every listed link resolves to the entry it names.
fn build_entry(current: &str, e: &RawEntry) -> (r: FileEntry)
    ensures
        r.name@ == e.name@,
        r.is_dir == e.is_dir,
        r.size == e.size,
        r.url@ == seq!['/'] + percent_encoded(spec_entry_path(current@, e.name@)),
        crate::resolve::percent_decoded(r.url@.skip(1)) == Some(
            spec_entry_path(current@, e.name@),
        ),
{
    proof {
        reveal_strlit("/");
        assert("/"@ =~= seq!['/']);
    }
    let path: String = if current.unicode_len() == 0 {
        e.name.clone()
    } else {
        let mut p = trim_trailing_slashes(current);
        p.append("/");
        p.append(e.name.as_str());
        p
    };
    let encoded = percent_encode_component(path.as_str());
    let mut url = String::from_str("/");
    url.append(encoded.as_str());
    proof {
        assert((seq!['/'] + encoded@).skip(1) =~= encoded@);
    }
    FileEntry { name: e.name.clone(), is_dir: e.is_dir, size: e.size, url }
}

/// Builds the `..` entry linking to the parent of the current path.
pub fn parent_entry(current: &str) -> (r: FileEntry)
    ensures
        r.name@ == ".."@,
        r.is_dir,
        r.size is None,
        r.url@ == seq!['/'] + spec_parent_path(current@),
{
    proof {
        reveal_strlit("/");
        assert("/"@ =~= seq!['/']);
    }
    let mut url = String::from_str("/");
    if current.unicode_len() > 0 {
        let t = trim_trailing_slashes(current);
        let tlen = t.as_str().unicode_len();
        let mut i: usize = tlen;
        while i > 0 && t.as_str().get_char(i - 1) != '/'
            invariant
                i <= tlen,
                tlen == t@.len(),
                forall|j: int| i <= j < tlen ==> t@[j] != '/',
            decreases i,
        {
            i = i - 1;
        }
        proof {
            crate::headers::lemma_name_start_at(t@, i as int);
        }
        if i > 0 {
            url.append(t.as_str().substring_char(0, i - 1));
        }
    }
    FileEntry { name: String::from_str(".."), is_dir: true, size: None, url }
}

/// Prepares the full listing of a directory for the page renderer: a
/// parent entry first whenever the listed directory is not the root, then
/// the entries in listing order — directories strictly before files, names
/// ascending — each under the percent-encoded URL of its path.
pub fn directory_listing(current: &str, entries: Vec<RawEntry>, include_parent: bool) -> (r:
    Vec<FileEntry>)
    ensures
        r@.len() == entries@.len() + (if include_parent { 1int } else { 0int }),
        include_parent ==> r@[0].name@ == ".."@ && r@[0].is_dir && r@[0].size is None
            && r@[0].url@ == seq!['/'] + spec_parent_path(current@),
        forall|i: int| (if include_parent { 1int } else { 0int }) <= i < r@.len()
            ==> (#[trigger] r@[i]).url@ == seq!['/'] + percent_encoded(
            spec_entry_path(current@, r@[i].name@),
        ),
        forall|i: int| (if include_parent { 1int } else { 0int }) <= i < r@.len()
            ==> crate::resolve::percent_decoded((#[trigger] r@[i]).url@.skip(1)) == Some(
            spec_entry_path(current@, r@[i].name@),
        ),
        spec_entries_sorted(
            r@.skip(if include_parent { 1int } else { 0int }).map_values(
                |e: FileEntry| file_entry_model(e),
            ),
        ),
        r@.skip(if include_parent { 1int } else { 0int }).map_values(
            |e: FileEntry| file_entry_model(e),
        ).to_multiset() == entry_models(entries@).to_multiset(),
{
    let sorted = sort_entries(entries);
    let mut out: Vec<FileEntry> = Vec::new();
    if include_parent {
        out.push(parent_entry(current));
    }
    let ghost off: int = out@.len() as int;
    let mut idx: usize = 0;
    while idx < sorted.len()
        invariant
            off == (if include_parent { 1int } else { 0int }),
            out@.len() == off + idx,
            idx <= sorted@.len(),
            include_parent ==> out@[0].name@ == ".."@ && out@[0].is_dir && out@[0].size is None
                && out@[0].url@ == seq!['/'] + spec_parent_path(current@),
            forall|i: int| off <= i < out@.len() ==> (#[trigger] out@[i]).url@ == seq!['/']
                + percent_encoded(spec_entry_path(current@, out@[i].name@)),
            forall|i: int| off <= i < out@.len() ==> crate::resolve::percent_decoded(
                (#[trigger] out@[i]).url@.skip(1),
            ) == Some(spec_entry_path(current@, out@[i].name@)),
            forall|i: int| off <= i < out@.len() ==> file_entry_model(#[trigger] out@[i])
                == entry_models(sorted@)[i - off],
            spec_entries_sorted(entry_models(sorted@)),
            entry_models(sorted@).to_multiset() == entry_models(entries@).to_multiset(),
            sorted@.len() == entries@.len(),
        decreases sorted@.len() - idx,
    {
        out.push(build_entry(current, &sorted[idx]));
        idx = idx + 1;
    }
    proof {
        assert(out@.skip(off).map_values(|e: FileEntry| file_entry_model(e)) =~= entry_models(
            sorted@,
        ));
    }
    out
}

} // verus!
