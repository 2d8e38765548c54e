use vstd::prelude::*;

verus! {

use vstd::string::StrSliceExecFns;

use vstd::string::StringExecFns;

use crate::error::AppError;

// ---------------------------------------------------------------------------
// Path classification states
// ---------------------------------------------------------------------------

/// Classification of one filesystem path.
#[derive(Clone, Copy, PartialEq, Eq, Structural, Debug)]
pub enum PathState {
    /// An existing directory; holds the number of accessible non-hidden,
    /// non-directory descendants.
    Directory(usize),
    /// An existing, readable regular file.
    File,
    /// Nothing usable stands at the path.
    Invalid,
    /// Not classified yet; every fresh or freshly edited entry starts here.
    Unchecked,
}

// ---------------------------------------------------------------------------
// Character predicates
// ---------------------------------------------------------------------------

/// The Unicode whitespace characters, as the parser and classifier trim them.
pub open spec fn spec_is_whitespace_char(c: char) -> bool {
    c == ' ' || c == '\t' || c == '\n' || c == '\r' || c == '\u{b}' || c == '\u{c}'
        || c == '\u{85}' || c == '\u{a0}' || c == '\u{1680}' || (c as u32 >= 0x2000 && c as u32
        <= 0x200a) || c == '\u{2028}' || c == '\u{2029}' || c == '\u{202f}' || c == '\u{205f}'
        || c == '\u{3000}'
}

pub fn is_whitespace_char(c: char) -> (r: bool)
    ensures
        r == spec_is_whitespace_char(c),
{
    c == ' ' || c == '\t' || c == '\n' || c == '\r' || c == '\u{b}' || c == '\u{c}' || c == '\u{85}'
        || c == '\u{a0}' || c == '\u{1680}' || (c as u32 >= 0x2000 && c as u32 <= 0x200a) || c
        == '\u{2028}' || c == '\u{2029}' || c == '\u{202f}' || c == '\u{205f}' || c == '\u{3000}'
}

/// Characters stripped from both ends of a parsed path fragment: whitespace,
/// quotes, and semicolons.
pub open spec fn spec_is_trim_char(c: char) -> bool {
    spec_is_whitespace_char(c) || c == ';' || c == '"'
}

pub fn is_trim_char(c: char) -> (r: bool)
    ensures
        r == spec_is_trim_char(c),
{
    is_whitespace_char(c) || c == ';' || c == '"'
}

/// An ASCII letter, as the first character of a drive designator.
pub open spec fn spec_is_ascii_letter(c: char) -> bool {
    (c as u32 >= 65 && c as u32 <= 90) || (c as u32 >= 97 && c as u32 <= 122)
}

pub fn is_ascii_letter(c: char) -> (r: bool)
    ensures
        r == spec_is_ascii_letter(c),
{
    (c as u32 >= 65 && c as u32 <= 90) || (c as u32 >= 97 && c as u32 <= 122)
}

// ---------------------------------------------------------------------------
// Conversions between strings and character vectors
// ---------------------------------------------------------------------------

/// The characters of a string slice, in order.
pub fn chars_of(s: &str) -> (r: Vec<char>)
    ensures
        r@ == s@,
{
    let n = s.unicode_len();
    let mut v: Vec<char> = Vec::new();
    let mut i: usize = 0;
    while i < n
        invariant
            i <= n,
            n == s@.len(),
            v@ == s@.subrange(0, i as int),
        decreases n - i,
    {
        let c = s.get_char(i);
        v.push(c);
        assert(v@ =~= s@.subrange(0, i + 1 as int));
        i = i + 1;
    }
    assert(v@ =~= s@);
    v
}

/// A string holding the characters `chars[lo..hi]`, in order.
pub fn string_from_range(chars: &Vec<char>, lo: usize, hi: usize) -> (r: String)
    requires
        lo <= hi <= chars@.len(),
    ensures
        r@ == chars@.subrange(lo as int, hi as int),
{
    let mut s = String::new();
    let mut i = lo;
    while i < hi
        invariant
            lo <= i <= hi <= chars@.len(),
            s@ == chars@.subrange(lo as int, i as int),
        decreases hi - i,
    {
        s.push(chars[i]);
        assert(s@ =~= chars@.subrange(lo as int, i + 1 as int));
        i = i + 1;
    }
    s
}

// ---------------------------------------------------------------------------
// Trimming a fragment
// ---------------------------------------------------------------------------

/// The first position at or after `i` whose character is not trimmed away.
pub open spec fn spec_trim_lo(s: Seq<char>, i: int) -> int
    decreases s.len() - i,
{
    if i < 0 || i >= s.len() {
        s.len() as int
    } else if spec_is_trim_char(s[i]) {
        spec_trim_lo(s, i + 1)
    } else {
        i
    }
}

/// The position after the last character at or before `j - 1` that is not
/// trimmed away.
pub open spec fn spec_trim_hi(s: Seq<char>, j: int) -> int
    decreases j,
{
    if j <= 0 {
        0
    } else if j > s.len() {
        s.len() as int
    } else if spec_is_trim_char(s[j - 1]) {
        spec_trim_hi(s, j - 1)
    } else {
        j
    }
}

/// A fragment with surrounding whitespace, quote, and semicolon characters
/// removed from both ends.
pub open spec fn spec_trim(s: Seq<char>) -> Seq<char> {
    let lo = spec_trim_lo(s, 0);
    let hi = spec_trim_hi(s, s.len() as int);
    if lo < hi {
        s.subrange(lo, hi)
    } else {
        Seq::empty()
    }
}

/// Trims a fragment of the whitespace, quote, and semicolon characters that
/// surround it.
pub fn trim_chars(v: &Vec<char>) -> (r: Vec<char>)
    ensures
        r@ == spec_trim(v@),
{
    let n = v.len();
    let mut lo: usize = 0;
    while lo < n && is_trim_char(v[lo])
        invariant
            lo <= n,
            n == v@.len(),
            spec_trim_lo(v@, 0) == spec_trim_lo(v@, lo as int),
        decreases n - lo,
    {
        lo = lo + 1;
    }
    assert(spec_trim_lo(v@, 0) == lo as int);
    let mut hi: usize = n;
    while hi > 0 && is_trim_char(v[hi - 1])
        invariant
            hi <= n,
            n == v@.len(),
            spec_trim_hi(v@, n as int) == spec_trim_hi(v@, hi as int),
        decreases hi,
    {
        hi = hi - 1;
    }
    assert(spec_trim_hi(v@, n as int) == hi as int);
    let mut out: Vec<char> = Vec::new();
    if lo < hi {
        let mut i = lo;
        while i < hi
            invariant
                lo <= i <= hi <= v@.len(),
                out@ == v@.subrange(lo as int, i as int),
            decreases hi - i,
        {
            out.push(v[i]);
            assert(out@ =~= v@.subrange(lo as int, i + 1 as int));
            i = i + 1;
        }
    } else {
        assert(out@ =~= Seq::<char>::empty());
    }
    out
}

// ---------------------------------------------------------------------------
// Splitting raw input into path fragments
// ---------------------------------------------------------------------------

/// A drive-letter designator begins at `i`: an ASCII letter followed by a
/// colon.
pub open spec fn spec_drive_prefix_at(s: Seq<char>, i: int) -> bool {
    0 <= i && i + 1 < s.len() && spec_is_ascii_letter(s[i]) && s[i + 1] == ':'
}

/// A fragment boundary: the end of the input, a semicolon, a newline, or the
/// start of a drive-letter designator.
pub open spec fn spec_boundary(s: Seq<char>, i: int) -> bool {
    i >= s.len() || s[i] == ';' || s[i] == '\n' || spec_drive_prefix_at(s, i)
}

/// The first fragment boundary at or after `i`.
pub open spec fn spec_next_boundary(s: Seq<char>, i: int) -> int
    decreases s.len() - i,
{
    if i >= s.len() {
        s.len() as int
    } else if spec_boundary(s, i) {
        i
    } else {
        spec_next_boundary(s, i + 1)
    }
}

proof fn lemma_next_boundary_bounds(s: Seq<char>, i: int)
    requires
        0 <= i <= s.len(),
    ensures
        i <= spec_next_boundary(s, i) <= s.len(),
    decreases s.len() - i,
{
    if i < s.len() && !spec_boundary(s, i) {
        lemma_next_boundary_bounds(s, i + 1);
    }
}

/// Where the fragment that begins at `i` ends. A fragment opening with a
/// drive-letter designator keeps at least one character past the colon before
/// boundaries are honored; any other fragment keeps at least its first
/// character.
pub open spec fn spec_fragment_end(s: Seq<char>, i: int) -> int {
    if spec_drive_prefix_at(s, i) && i + 2 < s.len() && s[i + 2] != '\n' {
        spec_next_boundary(s, i + 3)
    } else {
        spec_next_boundary(s, i + 1)
    }
}

proof fn lemma_fragment_end_bounds(s: Seq<char>, i: int)
    requires
        0 <= i < s.len(),
    ensures
        i < spec_fragment_end(s, i) <= s.len(),
{
    if spec_drive_prefix_at(s, i) && i + 2 < s.len() && s[i + 2] != '\n' {
        lemma_next_boundary_bounds(s, i + 3);
    } else {
        lemma_next_boundary_bounds(s, i + 1);
    }
}

/// The trimmed fragments of `s` from position `i` on: newlines are stepped
/// over, every other position opens a fragment that runs to its end, and a
/// fragment that trims to nothing is dropped.
pub open spec fn spec_scan(s: Seq<char>, i: int) -> Seq<Seq<char>>
    decreases s.len() - i,
    when 0 <= i
    via spec_scan_decreases
{
    if i >= s.len() {
        Seq::empty()
    } else if s[i] == '\n' {
        spec_scan(s, i + 1)
    } else {
        let e = spec_fragment_end(s, i);
        let t = spec_trim(s.subrange(i, e));
        if t.len() == 0 {
            spec_scan(s, e)
        } else {
            seq![t] + spec_scan(s, e)
        }
    }
}

#[via_fn]
proof fn spec_scan_decreases(s: Seq<char>, i: int) {
    if 0 <= i && i < s.len() && s[i] != '\n' {
        lemma_fragment_end_bounds(s, i);
    }
}

/// What the multi-path parser returns: the trimmed, non-empty fragments of
/// the input, in their original order.
pub open spec fn spec_parse_paths(s: Seq<char>) -> Seq<Seq<char>> {
    spec_scan(s, 0)
}

proof fn lemma_trim_lo_props(s: Seq<char>, i: int)
    requires
        0 <= i <= s.len(),
    ensures
        i <= spec_trim_lo(s, i) <= s.len(),
        spec_trim_lo(s, i) < s.len() ==> !spec_is_trim_char(s[spec_trim_lo(s, i)]),
    decreases s.len() - i,
{
    if i < s.len() && spec_is_trim_char(s[i]) {
        lemma_trim_lo_props(s, i + 1);
    }
}

proof fn lemma_trim_hi_props(s: Seq<char>, j: int)
    requires
        0 <= j <= s.len(),
    ensures
        0 <= spec_trim_hi(s, j) <= j,
        spec_trim_hi(s, j) > 0 ==> !spec_is_trim_char(s[spec_trim_hi(s, j) - 1]),
    decreases j,
{
    if j > 0 && spec_is_trim_char(s[j - 1]) {
        lemma_trim_hi_props(s, j - 1);
    }
}

/// A trimmed fragment never begins or ends with a trimmed-away character.
proof fn lemma_trim_ends(s: Seq<char>)
    ensures
        spec_trim(s).len() > 0 ==> !spec_is_trim_char(spec_trim(s)[0]),
        spec_trim(s).len() > 0 ==> !spec_is_trim_char(spec_trim(s)[spec_trim(s).len() - 1]),
{
    lemma_trim_lo_props(s, 0);
    lemma_trim_hi_props(s, s.len() as int);
}

proof fn lemma_scan_fragments_trimmed(s: Seq<char>, i: int)
    requires
        0 <= i,
    ensures
        forall|k: int|
            0 <= k < spec_scan(s, i).len() ==> {
                let f = #[trigger] spec_scan(s, i)[k];
                &&& f.len() > 0
                &&& !spec_is_trim_char(f[0])
                &&& !spec_is_trim_char(f[f.len() - 1])
            },
    decreases s.len() - i,
{
    if i >= s.len() {
        assert(spec_scan(s, i).len() == 0);
    } else if s[i] == '\n' {
        lemma_scan_fragments_trimmed(s, i + 1);
        assert(spec_scan(s, i) == spec_scan(s, i + 1));
    } else {
        lemma_fragment_end_bounds(s, i);
        let e = spec_fragment_end(s, i);
        lemma_trim_ends(s.subrange(i, e));
        lemma_scan_fragments_trimmed(s, e);
        let t = spec_trim(s.subrange(i, e));
        if t.len() == 0 {
            assert(spec_scan(s, i) == spec_scan(s, e));
        } else {
            assert forall|k: int| 0 <= k < spec_scan(s, i).len() implies {
                let f = #[trigger] spec_scan(s, i)[k];
                &&& f.len() > 0
                &&& !spec_is_trim_char(f[0])
                &&& !spec_is_trim_char(f[f.len() - 1])
            } by {
                if k == 0 {
                    assert(spec_scan(s, i)[0] == t);
                } else {
                    assert(spec_scan(s, i)[k] == spec_scan(s, e)[k - 1]);
                }
            }
        }
    }
}

proof fn lemma_next_boundary_stops(s: Seq<char>, q: int, e: int)
    requires
        0 <= q <= e <= s.len(),
        spec_boundary(s, e) || e == s.len(),
        forall|k: int| q <= k < e ==> !spec_boundary(s, k),
    ensures
        spec_next_boundary(s, q) == e,
    decreases e - q,
{
    if q < e {
        lemma_next_boundary_stops(s, q + 1, e);
    }
}

proof fn lemma_next_boundary_suffix(s: Seq<char>, i: int, t: Seq<char>, j: int, q: int)
    requires
        0 <= i <= s.len(),
        0 <= j <= t.len(),
        s.len() - i == t.len() - j,
        forall|d: int| 0 <= d < s.len() - i ==> s[i + d] == #[trigger] t[j + d],
        i <= q <= s.len(),
    ensures
        spec_next_boundary(s, q) - i == spec_next_boundary(t, q - i + j) - j,
    decreases s.len() - q,
{
    let p = q - i + j;
    if q < s.len() {
        assert(s[q] == t[p]) by {
            assert(s[i + (q - i)] == t[j + (q - i)]);
        }
        if q + 1 < s.len() {
            assert(s[q + 1] == t[p + 1]) by {
                assert(s[i + (q + 1 - i)] == t[j + (q + 1 - i)]);
            }
        }
        assert(spec_boundary(s, q) == spec_boundary(t, p));
        if !spec_boundary(s, q) {
            lemma_next_boundary_suffix(s, i, t, j, q + 1);
        }
    }
}

proof fn lemma_scan_suffix(s: Seq<char>, i: int, t: Seq<char>, j: int)
    requires
        0 <= i <= s.len(),
        0 <= j <= t.len(),
        s.len() - i == t.len() - j,
        forall|d: int| 0 <= d < s.len() - i ==> s[i + d] == #[trigger] t[j + d],
    ensures
        spec_scan(s, i) == spec_scan(t, j),
    decreases s.len() - i,
{
    if i >= s.len() {
    } else if s[i] == '\n' {
        assert(s[i + 0] == t[j + 0]);
        assert forall|d: int| 0 <= d < s.len() - (i + 1) implies s[(i + 1) + d] == #[trigger] t[(j
            + 1) + d] by {
            assert(s[i + (d + 1)] == t[j + (d + 1)]);
        }
        lemma_scan_suffix(s, i + 1, t, j + 1);
    } else {
        assert(s[i + 0] == t[j + 0]);
        if i + 1 < s.len() {
            assert(s[i + 1] == t[j + 1]);
        }
        if i + 2 < s.len() {
            assert(s[i + 2] == t[j + 2]);
        }
        lemma_next_boundary_suffix(s, i, t, j, i + 1);
        if spec_drive_prefix_at(s, i) && i + 2 < s.len() && s[i + 2] != '\n' {
            assert(spec_drive_prefix_at(t, j));
            lemma_next_boundary_suffix(s, i, t, j, i + 3);
        } else {
            assert(!(spec_drive_prefix_at(t, j) && j + 2 < t.len() && t[j + 2] != '\n'));
        }
        let e = spec_fragment_end(s, i);
        let f = spec_fragment_end(t, j);
        lemma_fragment_end_bounds(s, i);
        lemma_fragment_end_bounds(t, j);
        assert(e - i == f - j);
        assert(s.subrange(i, e) =~= t.subrange(j, f)) by {
            assert forall|d: int| 0 <= d < e - i implies #[trigger] s.subrange(i, e)[d]
                == t.subrange(j, f)[d] by {
                assert(s[i + d] == t[j + d]);
            }
        }
        assert forall|d: int| 0 <= d < s.len() - e implies s[e + d] == #[trigger] t[f + d] by {
            assert(s[i + (e - i + d)] == t[j + (e - i + d)]);
        }
        lemma_scan_suffix(s, e, t, f);
    }
}

proof fn lemma_trim_lo_shift(x: Seq<char>, u: Seq<char>, k: int)
    requires
        u.len() == x.len() + 1,
        forall|d: int| 0 <= d < x.len() ==> u[1 + d] == #[trigger] x[d],
        0 <= k <= x.len(),
    ensures
        spec_trim_lo(u, k + 1) == spec_trim_lo(x, k) + 1,
    decreases x.len() - k,
{
    if k < x.len() {
        assert(u[k + 1] == x[k]) by {
            assert(u[1 + k] == x[k]);
        }
        if spec_is_trim_char(x[k]) {
            lemma_trim_lo_shift(x, u, k + 1);
        }
    }
}

proof fn lemma_trim_hi_shift(x: Seq<char>, u: Seq<char>, k: int)
    requires
        u.len() == x.len() + 1,
        forall|d: int| 0 <= d < x.len() ==> u[1 + d] == #[trigger] x[d],
        spec_is_trim_char(u[0]),
        0 <= k <= x.len(),
    ensures
        spec_trim_hi(u, k + 1) == if spec_trim_hi(x, k) == 0 {
            0int
        } else {
            spec_trim_hi(x, k) + 1
        },
    decreases k,
{
    if k == 0 {
        assert(spec_trim_hi(u, 0) == 0);
        assert(spec_trim_hi(u, 1) == 0);
    } else {
        assert(u[k] == x[k - 1]) by {
            assert(u[1 + (k - 1)] == x[k - 1]);
        }
        if spec_is_trim_char(x[k - 1]) {
            lemma_trim_hi_shift(x, u, k - 1);
        }
    }
}

/// Trimming ignores a leading character that would be trimmed anyway.
proof fn lemma_trim_prepend_trimchar(x: Seq<char>, c: char)
    requires
        spec_is_trim_char(c),
    ensures
        spec_trim(seq![c] + x) == spec_trim(x),
{
    let u = seq![c] + x;
    assert(u[0] == c);
    assert forall|d: int| 0 <= d < x.len() implies u[1 + d] == #[trigger] x[d] by {
    }
    lemma_trim_lo_shift(x, u, 0);
    assert(spec_trim_lo(u, 0) == spec_trim_lo(u, 1));
    lemma_trim_hi_shift(x, u, x.len() as int);
    let lo_x = spec_trim_lo(x, 0);
    let hi_x = spec_trim_hi(x, x.len() as int);
    lemma_trim_lo_props(x, 0);
    lemma_trim_hi_props(x, x.len() as int);
    if lo_x < hi_x {
        assert(u.subrange(lo_x + 1, hi_x + 1) =~= x.subrange(lo_x, hi_x)) by {
            assert forall|d: int| 0 <= d < hi_x - lo_x implies #[trigger] u.subrange(
                lo_x + 1,
                hi_x + 1,
            )[d] == x.subrange(lo_x, hi_x)[d] by {
                assert(u[1 + (lo_x + d)] == x[lo_x + d]);
            }
        }
    }
}

/// A plain path fragment: non-empty, it survives trimming, and it holds none
/// of the separator or drive-designator characters that could split it or
/// merge it with a neighbor.
pub open spec fn spec_plain_fragment(f: Seq<char>) -> bool {
    &&& f.len() > 0
    &&& spec_trim(f).len() > 0
    &&& forall|k: int|
        0 <= k < f.len() ==> (#[trigger] f[k] != ';' && f[k] != '\n' && f[k] != ':')
}

/// The given fragments, each followed by a semicolon separator.
pub open spec fn spec_join_semicolons(parts: Seq<Seq<char>>) -> Seq<char>
    decreases parts.len(),
{
    if parts.len() == 0 {
        Seq::empty()
    } else {
        parts[0] + seq![';'] + spec_join_semicolons(parts.drop_first())
    }
}

/// A plain fragment followed by a semicolon opens any join: the scan takes
/// exactly the fragment, trims it, and continues at the separator.
proof fn lemma_join_head(f: Seq<char>, tail: Seq<char>)
    requires
        spec_plain_fragment(f),
    ensures
        spec_fragment_end(f + seq![';'] + tail, 0) == f.len(),
        spec_scan(f + seq![';'] + tail, 0) == seq![spec_trim(f)] + spec_scan(
            f + seq![';'] + tail,
            f.len() as int,
        ),
{
    let w = f + seq![';'] + tail;
    let flen = f.len() as int;
    assert(w[flen] == ';');
    assert forall|d: int| 0 <= d < flen implies w[d] == #[trigger] f[d] by {
    }
    assert forall|q: int| 1 <= q < flen implies !spec_boundary(w, q) by {
        assert(w[q] == f[q]);
        if q + 1 < flen {
            assert(w[q + 1] == f[q + 1]);
        }
    }
    assert(spec_boundary(w, flen));
    lemma_next_boundary_stops(w, 1, flen);
    assert(!spec_drive_prefix_at(w, 0)) by {
        if flen > 1 {
            assert(w[1] == f[1]);
        }
    }
    assert(spec_fragment_end(w, 0) == flen);
    assert(w.subrange(0, flen) =~= f);
    assert(w[0] == f[0]);
    assert(spec_scan(w, 0) == seq![spec_trim(f)] + spec_scan(w, flen));
}

/// Splitting is exact: a raw input holding plain fragments separated by
/// semicolons parses to exactly those fragments, trimmed and in their
/// original order.
#[verifier::rlimit(50)]
pub proof fn lemma_parse_paths_exact_split(parts: Seq<Seq<char>>)
    requires
        forall|k: int| 0 <= k < parts.len() ==> spec_plain_fragment(#[trigger] parts[k]),
    ensures
        spec_parse_paths(spec_join_semicolons(parts)) == parts.map(
            |k: int, p: Seq<char>| spec_trim(p),
        ),
    decreases parts.len(),
{
    let w = spec_join_semicolons(parts);
    let result = parts.map(|k: int, p: Seq<char>| spec_trim(p));
    if parts.len() == 0 {
        assert(spec_scan(w, 0).len() == 0);
        assert(result =~= Seq::<Seq<char>>::empty());
    } else {
        let f = parts[0];
        assert(spec_plain_fragment(f));
        let rest = parts.drop_first();
        let jr = spec_join_semicolons(rest);
        assert(w =~= f + seq![';'] + jr);
        let flen = f.len() as int;
        lemma_join_head(f, jr);
        assert(w[flen] == ';');
        assert(spec_scan(w, 0) == seq![spec_trim(f)] + spec_scan(w, flen));
        lemma_parse_paths_exact_split(rest);
        if rest.len() == 0 {
            // only the trailing separator is left, and it trims to nothing
            assert(w.len() == flen + 1);
            assert(!spec_drive_prefix_at(w, flen));
            assert(spec_next_boundary(w, flen + 1) == flen + 1);
            assert(spec_fragment_end(w, flen) == flen + 1);
            assert(w.subrange(flen, flen + 1) =~= seq![';']);
            assert(seq![';'][0] == ';');
            assert(spec_trim_lo(seq![';'], 1) == 1);
            assert(spec_trim_lo(seq![';'], 0) == 1);
            assert(spec_trim_hi(seq![';'], 0) == 0);
            assert(spec_trim_hi(seq![';'], 1) == 0);
            assert(spec_trim(seq![';']).len() == 0);
            assert(spec_scan(w, flen) == spec_scan(w, flen + 1));
            assert(spec_scan(w, flen + 1).len() == 0);
            assert(result =~= seq![spec_trim(f)]);
            assert(spec_scan(w, 0) =~= result);
        } else {
            let g = rest[0];
            assert(spec_plain_fragment(g));
            let glen = g.len() as int;
            assert(jr =~= g + seq![';'] + spec_join_semicolons(rest.drop_first()));
            assert forall|d: int| 0 <= d < jr.len() implies w[flen + 1 + d] == #[trigger] jr[d] by {
            }
            assert(jr[glen] == ';');
            assert forall|d: int| 0 <= d < glen implies jr[d] == #[trigger] g[d] by {
            }
            // the fragment opening at the separator swallows it, runs to the
            // next separator, and trims to the bare second fragment
            let e2 = flen + 1 + glen;
            assert forall|q: int| flen + 1 <= q < e2 implies !spec_boundary(w, q) by {
                assert(w[q] == g[q - flen - 1]);
                if q + 1 < e2 {
                    assert(w[q + 1] == g[q + 1 - flen - 1]);
                } else {
                    assert(w[q + 1] == jr[glen]);
                }
            }
            assert(spec_boundary(w, e2)) by {
                assert(w[e2] == jr[glen]);
            }
            lemma_next_boundary_stops(w, flen + 1, e2);
            assert(!spec_drive_prefix_at(w, flen));
            assert(spec_fragment_end(w, flen) == e2);
            assert(w.subrange(flen, e2) =~= seq![';'] + g) by {
                assert forall|d: int| 0 <= d < e2 - flen implies #[trigger] w.subrange(
                    flen,
                    e2,
                )[d] == (seq![';'] + g)[d] by {
                    if d > 0 {
                        assert(w[flen + d] == jr[d - 1]);
                    }
                }
            }
            lemma_trim_prepend_trimchar(g, ';');
            assert(spec_scan(w, flen) == seq![spec_trim(g)] + spec_scan(w, e2));
            // the same fragment opens the joined rest
            lemma_join_head(g, spec_join_semicolons(rest.drop_first()));
            assert(spec_scan(jr, 0) == seq![spec_trim(g)] + spec_scan(jr, glen));
            // past those fragments the two strings agree
            assert forall|d: int| 0 <= d < w.len() - e2 implies w[e2 + d] == #[trigger] jr[glen
                + d] by {
                assert(w[flen + 1 + (glen + d)] == jr[glen + d]);
            }
            assert(w.len() - e2 == jr.len() - glen);
            lemma_scan_suffix(w, e2, jr, glen);
            assert(spec_scan(w, flen) == spec_scan(jr, 0));
            assert(spec_scan(jr, 0) == rest.map(|k: int, p: Seq<char>| spec_trim(p)));
            assert(result =~= seq![spec_trim(f)] + rest.map(|k: int, p: Seq<char>| spec_trim(p)));
            assert(spec_scan(w, 0) == result);
        }
    }
}

/// Every fragment the multi-path parser returns is non-empty and carries no
/// surrounding whitespace, quote, or semicolon characters: splitting a raw
/// input yields exactly its trimmed, non-empty fragments, in order.
pub proof fn lemma_parse_paths_fragments_trimmed(s: Seq<char>)
    ensures
        forall|k: int|
            0 <= k < spec_parse_paths(s).len() ==> {
                let f = #[trigger] spec_parse_paths(s)[k];
                &&& f.len() > 0
                &&& !spec_is_trim_char(f[0])
                &&& !spec_is_trim_char(f[f.len() - 1])
            },
{
    lemma_scan_fragments_trimmed(s, 0);
}

fn is_boundary(chars: &Vec<char>, i: usize) -> (r: bool)
    requires
        i <= chars@.len(),
    ensures
        r == spec_boundary(chars@, i as int),
{
    let n = chars.len();
    if i >= n {
        true
    } else if chars[i] == ';' || chars[i] == '\n' {
        true
    } else {
        i + 1 < n && is_ascii_letter(chars[i]) && chars[i + 1] == ':'
    }
}

fn next_boundary(chars: &Vec<char>, start: usize) -> (r: usize)
    requires
        start <= chars@.len(),
    ensures
        r as int == spec_next_boundary(chars@, start as int),
        start <= r <= chars@.len(),
{
    let n = chars.len();
    let mut i = start;
    while !is_boundary(chars, i)
        invariant
            start <= i <= n,
            n == chars@.len(),
            spec_next_boundary(chars@, start as int) == spec_next_boundary(chars@, i as int),
        decreases n - i,
    {
        i = i + 1;
    }
    proof {
        lemma_next_boundary_bounds(chars@, start as int);
    }
    i
}

fn fragment_end(chars: &Vec<char>, i: usize) -> (r: usize)
    requires
        i < chars@.len(),
    ensures
        r as int == spec_fragment_end(chars@, i as int),
        i < r,
        r <= chars@.len(),
{
    let n = chars.len();
    if i + 1 < n && is_ascii_letter(chars[i]) && chars[i + 1] == ':' && i + 2 < n && chars[i + 2]
        != '\n' {
        next_boundary(chars, i + 3)
    } else {
        next_boundary(chars, i + 1)
    }
}

/// Splits raw input that may concatenate several filesystem paths. A fragment
/// either begins with a drive-letter designator and runs until the next
/// designator, semicolon, newline, or the end of the input, or runs until the
/// first of those. Fragments are trimmed of surrounding whitespace, quote,
/// and semicolon characters, and empty results are dropped. The split always
/// succeeds; the failure arm exists for callers, as a pattern engine that
/// could not execute would surface there.
pub fn parse_paths(path_string: &str) -> (r: Result<Vec<String>, AppError>)
    ensures
        r is Ok,
        r->Ok_0.deep_view() == spec_parse_paths(path_string@),
{
    let chars = chars_of(path_string);
    let n = chars.len();
    let mut paths: Vec<String> = Vec::new();
    let mut i: usize = 0;
    while i < n
        invariant
            n == chars@.len(),
            chars@ == path_string@,
            i <= n,
            paths.deep_view() + spec_scan(chars@, i as int) == spec_scan(chars@, 0),
        decreases n - i,
    {
        if chars[i] == '\n' {
            i = i + 1;
        } else {
            let e = fragment_end(&chars, i);
            let ghost prev = paths.deep_view();
            let frag = copy_range(&chars, i, e);
            let t = trim_chars(&frag);
            if t.len() > 0 {
                let text = string_from_range(&t, 0, t.len());
                assert(text@ == spec_trim(chars@.subrange(i as int, e as int))) by {
                    assert(t@.subrange(0, t@.len() as int) =~= t@);
                }
                paths.push(text);
                assert(paths.deep_view() =~= prev.push(text@));
                assert(prev.push(text@) =~= prev + seq![text@]);
            }
            assert(paths.deep_view() + spec_scan(chars@, e as int) =~= spec_scan(
                chars@,
                0,
            )) by {
                assert((prev + seq![spec_trim(chars@.subrange(i as int, e as int))]) + spec_scan(
                    chars@,
                    e as int,
                ) =~= prev + (seq![spec_trim(chars@.subrange(i as int, e as int))] + spec_scan(
                    chars@,
                    e as int,
                )));
            }
            i = e;
        }
    }
    assert(paths.deep_view() =~= paths.deep_view() + spec_scan(chars@, n as int));
    Ok(paths)
}

// ---------------------------------------------------------------------------
// Path normalization
// ---------------------------------------------------------------------------

/// Characters stripped from the front of a relative path before the
/// current-directory marker is attached: whitespace, separators, and dots.
pub open spec fn spec_is_leading_trim_char(c: char) -> bool {
    spec_is_whitespace_char(c) || c == '\\' || c == '/' || c == '.'
}

fn is_leading_trim_char(c: char) -> (r: bool)
    ensures
        r == spec_is_leading_trim_char(c),
{
    is_whitespace_char(c) || c == '\\' || c == '/' || c == '.'
}

/// The first position at or after `i` that survives the leading strip.
pub open spec fn spec_norm_lo(s: Seq<char>, i: int) -> int
    decreases s.len() - i,
{
    if i < 0 || i >= s.len() {
        s.len() as int
    } else if spec_is_leading_trim_char(s[i]) {
        spec_norm_lo(s, i + 1)
    } else {
        i
    }
}

/// The classifier's normal form of a path: an absolute path, or one already
/// bearing a current-directory marker, stands unchanged; any other path is
/// stripped of leading whitespace, separators, and dots and prefixed with
/// the marker.
pub open spec fn spec_normalize(s: Seq<char>) -> Seq<char> {
    if s.len() == 0 {
        s
    } else if s[0] == '/' || s[0] == '.' {
        s
    } else {
        seq!['.', '/'] + s.subrange(spec_norm_lo(s, 0), s.len() as int)
    }
}

/// Rewrites a path into the classifier's normal form.
pub fn normalize_path_string(path_string: &str) -> (r: String)
    ensures
        r@ == spec_normalize(path_string@),
{
    broadcast use vstd::string::group_string_axioms;

    let chars = chars_of(path_string);
    let n = chars.len();
    if n == 0 {
        let r = String::new();
        assert(r@ =~= path_string@);
        return r;
    }
    let c0 = chars[0];
    if c0 == '/' || c0 == '.' {
        let r = string_from_range(&chars, 0, n);
        assert(r@ =~= path_string@);
        return r;
    }
    let mut lo: usize = 0;
    while lo < n && is_leading_trim_char(chars[lo])
        invariant
            lo <= n,
            n == chars@.len(),
            spec_norm_lo(chars@, 0) == spec_norm_lo(chars@, lo as int),
        decreases n - lo,
    {
        lo = lo + 1;
    }
    assert(spec_norm_lo(chars@, 0) == lo as int);
    let mut out = String::from_str("./");
    proof {
        reveal_strlit("./");
    }
    assert(out@ =~= seq!['.', '/']);
    let rest = string_from_range(&chars, lo, n);
    out.append(rest.as_str());
    assert(out@ =~= spec_normalize(path_string@));
    out
}

// ---------------------------------------------------------------------------
// Filesystem probes (trusted: what stands on disk is outside the program)
// ---------------------------------------------------------------------------

/// What the filesystem reports for one resolved path.
#[derive(Clone, Copy, PartialEq, Eq, Structural, Debug)]
pub enum PathProbe {
    /// The path could not be resolved to an absolute form.
    Unresolvable,
    /// A regular file whose metadata is readable.
    ReadableFile,
    /// A regular file that cannot be consulted.
    UnreadableFile,
    /// A directory.
    Directory,
    /// Nothing usable stands at the path.
    Missing,
}

/// One entry met while walking a directory tree.
#[derive(Debug)]
pub struct WalkEntry {
    /// The entry's final path component.
    pub name: String,
    /// Whether the entry is itself a directory.
    pub is_dir: bool,
}

/// Relies on path_absolutize::Absolutize::absolutize: the path resolved
/// against the working directory, or nothing when it cannot be resolved (or
/// the resolved form is not text).
#[verifier::external_body]
fn absolutize_path(path: &str) -> Option<String> {
    let p = std::path::Path::new(path);
    match path_absolutize::Absolutize::absolutize(p) {
        Ok(abs) => abs.to_str().map(|text| text.to_string()),
        Err(_) => None,
    }
}

/// Relies on std::path::Path::is_file: whether an existing regular file
/// stands at the path.
#[verifier::external_body]
fn path_is_file(path: &str) -> bool {
    std::path::Path::new(path).is_file()
}

/// Relies on std::path::Path::is_dir: whether an existing directory stands
/// at the path.
#[verifier::external_body]
fn path_is_dir(path: &str) -> bool {
    std::path::Path::new(path).is_dir()
}

/// Relies on std::path::Path::metadata: whether the entry at the path can be
/// consulted at all. This stands in for an open-for-read attempt, the closest
/// probe available to this library: a file whose metadata cannot be read is
/// demoted to `Invalid`, though a file that answers a stat yet refuses an
/// open still passes as readable.
#[verifier::external_body]
fn path_metadata_ok(path: &str) -> bool {
    std::path::Path::new(path).metadata().is_ok()
}

/// Consults the filesystem about one normalized path, combining the probes
/// in the classifier's order: resolution first, then the file test with its
/// readability check, then the directory test.
fn probe_path(path: &str) -> PathProbe {
    let resolved = match absolutize_path(path) {
        Some(resolved) => resolved,
        None => {
            return PathProbe::Unresolvable;
        },
    };
    if path_is_file(resolved.as_str()) {
        if path_metadata_ok(resolved.as_str()) {
            PathProbe::ReadableFile
        } else {
            PathProbe::UnreadableFile
        }
    } else if path_is_dir(resolved.as_str()) {
        PathProbe::Directory
    } else {
        PathProbe::Missing
    }
}

/// Relies on walkdir::WalkDir: walks the tree under `path`, skips entries the
/// walker itself could not read, and hands back each remaining entry's name
/// and directory flag; a failed metadata lookup aborts the walk with its
/// message.
#[verifier::external_body]
fn walk_path(path: &str) -> Result<Vec<WalkEntry>, String> {
    let mut entries: Vec<WalkEntry> = Vec::new();
    for entry in walkdir::WalkDir::new(path) {
        let entry = match entry {
            Ok(e) => e,
            Err(_) => continue,
        };
        let is_dir = match entry.metadata() {
            Ok(m) => m.is_dir(),
            Err(e) => return Err(e.to_string()),
        };
        let name = entry.file_name().to_string_lossy().into_owned();
        entries.push(WalkEntry { name, is_dir });
    }
    Ok(entries)
}

// ---------------------------------------------------------------------------
// Classification
// ---------------------------------------------------------------------------

/// A walked entry is hidden when its name begins with a dot.
pub open spec fn spec_is_hidden(name: Seq<char>) -> bool {
    name.len() > 0 && name[0] == '.'
}

/// Returns whether a walked entry points to a hidden file or directory.
fn is_hidden_path(entry: &WalkEntry) -> (r: bool)
    ensures
        r == spec_is_hidden(entry.name@),
{
    let chars = chars_of(entry.name.as_str());
    chars.len() > 0 && chars[0] == '.'
}

/// How many walked entries are countable leaves: neither hidden nor
/// directories.
pub open spec fn spec_leaf_count(entries: Seq<WalkEntry>) -> int
    decreases entries.len(),
{
    if entries.len() == 0 {
        0
    } else {
        spec_leaf_count(entries.drop_last()) + if !spec_is_hidden(entries.last().name@)
            && !entries.last().is_dir {
            1int
        } else {
            0int
        }
    }
}

proof fn lemma_leaf_count_bounds(entries: Seq<WalkEntry>)
    ensures
        0 <= spec_leaf_count(entries) <= entries.len(),
    decreases entries.len(),
{
    if entries.len() > 0 {
        lemma_leaf_count_bounds(entries.drop_last());
    }
}

/// Counts the accessible leaves among the walked entries.
pub fn count_leaves(entries: &Vec<WalkEntry>) -> (n: usize)
    ensures
        n as int == spec_leaf_count(entries@),
{
    let mut count: usize = 0;
    let mut i: usize = 0;
    let len = entries.len();
    while i < len
        invariant
            i <= len,
            len == entries@.len(),
            count as int == spec_leaf_count(entries@.subrange(0, i as int)),
            count <= i,
        decreases len - i,
    {
        proof {
            lemma_leaf_count_bounds(entries@.subrange(0, i as int));
        }
        let e = &entries[i];
        if !is_hidden_path(e) && !e.is_dir {
            count = count + 1;
        }
        assert(entries@.subrange(0, i + 1 as int).drop_last() =~= entries@.subrange(0, i as int));
        assert(entries@.subrange(0, i + 1 as int).last() == entries@[i as int]);
        i = i + 1;
    }
    assert(entries@.subrange(0, len as int) =~= entries@);
    count
}

/// Maps a filesystem probe, and the walk taken for a directory, to the
/// resulting path state: a readable file is `File`; a directory is
/// `Directory` with its accessible leaf count; anything else is `Invalid`;
/// an unresolvable path or a failed walk is an error.
pub fn state_for_probe(probe: PathProbe, entries: Result<Vec<WalkEntry>, String>) -> (r: Result<
    PathState,
    AppError,
>)
    ensures
        probe is Unresolvable ==> (r matches Err(e) && e matches AppError::IoError(m) && m@
            == "could not resolve the path"@),
        probe is ReadableFile ==> r == Ok::<PathState, AppError>(PathState::File),
        probe is UnreadableFile ==> r == Ok::<PathState, AppError>(PathState::Invalid),
        probe is Missing ==> r == Ok::<PathState, AppError>(PathState::Invalid),
        probe is Directory ==> (entries matches Ok(v) ==> (r matches Ok(st) && st
            matches PathState::Directory(count) && count as int == spec_leaf_count(v@))),
        probe is Directory ==> (entries matches Err(m) ==> r == Err::<PathState, AppError>(
            AppError::IoError(m),
        )),
        r matches Ok(st) ==> !(st is Unchecked),
        r matches Err(e) ==> e is IoError,
{
    match probe {
        PathProbe::Unresolvable => Err(
            AppError::IoError(String::from_str("could not resolve the path")),
        ),
        PathProbe::ReadableFile => Ok(PathState::File),
        PathProbe::UnreadableFile => Ok(PathState::Invalid),
        PathProbe::Missing => Ok(PathState::Invalid),
        PathProbe::Directory => match entries {
            Ok(v) => Ok(PathState::Directory(count_leaves(&v))),
            Err(m) => Err(AppError::IoError(m)),
        },
    }
}

/// Every character of the input is whitespace; an empty input counts.
pub open spec fn spec_all_whitespace(s: Seq<char>) -> bool {
    forall|k: int| 0 <= k < s.len() ==> spec_is_whitespace_char(s[k])
}

fn all_whitespace(chars: &Vec<char>) -> (r: bool)
    ensures
        r == spec_all_whitespace(chars@),
{
    let n = chars.len();
    let mut i: usize = 0;
    while i < n
        invariant
            i <= n,
            n == chars@.len(),
            forall|k: int| 0 <= k < i ==> spec_is_whitespace_char(chars@[k]),
        decreases n - i,
    {
        if !is_whitespace_char(chars[i]) {
            return false;
        }
        i = i + 1;
    }
    true
}

/// Classifies one path. Empty or whitespace-only input is `Invalid`. The
/// path is otherwise normalized and the filesystem consulted: a readable
/// regular file is `File`; a directory is `Directory(n)` with `n` its
/// accessible non-hidden, non-directory descendants; anything else is
/// `Invalid`. Only an unresolvable path or an I/O failure during the walk
/// fails the call. The result is never `Unchecked`.
pub fn check_path(path_string: &str) -> (r: Result<PathState, AppError>)
    ensures
        spec_all_whitespace(path_string@) ==> r == Ok::<PathState, AppError>(PathState::Invalid),
        r matches Ok(st) ==> !(st is Unchecked),
        r matches Err(e) ==> e is IoError,
{
    let chars = chars_of(path_string);
    if all_whitespace(&chars) {
        return Ok(PathState::Invalid);
    }
    let normalized = normalize_path_string(path_string);
    let probe = probe_path(normalized.as_str());
    let entries = if probe == PathProbe::Directory {
        walk_path(normalized.as_str())
    } else {
        Ok(Vec::new())
    };
    state_for_probe(probe, entries)
}

/// The characters `chars[lo..hi]`, in order, as their own vector.
fn copy_range(chars: &Vec<char>, lo: usize, hi: usize) -> (r: Vec<char>)
    requires
        lo <= hi <= chars@.len(),
    ensures
        r@ == chars@.subrange(lo as int, hi as int),
{
    let mut out: Vec<char> = Vec::new();
    let mut i = lo;
    while i < hi
        invariant
            lo <= i <= hi <= chars@.len(),
            out@ == chars@.subrange(lo as int, i as int),
        decreases hi - i,
    {
        out.push(chars[i]);
        assert(out@ =~= chars@.subrange(lo as int, i + 1 as int));
        i = i + 1;
    }
    out
}

} // verus!
