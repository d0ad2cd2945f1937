//! Verified string building: repetition, padding, byte-length truncation and
//! substitution, all stated over character sequences.

use vstd::prelude::*;
use vstd::string::*;
use vstd::utf8::*;

verus! {

broadcast use vstd::utf8::encode_utf8_decode_utf8;

/// Number of bytes in the UTF-8 encoding of `s` (what `str::len` returns).
pub open spec fn utf8_len(s: Seq<char>) -> nat {
    encode_utf8(s).len()
}

/// The byte length of `s` as `str::len` reports it.
pub open spec fn blen(s: Seq<char>) -> usize {
    utf8_len(s) as usize
}

/// The characters whose UTF-8 encoding is the first `n` bytes of `s`'s
/// encoding, or all of `s` when `n` reaches past its end.
pub open spec fn take_bytes(s: Seq<char>, n: nat) -> Seq<char> {
    if n >= blen(s) {
        s
    } else {
        decode_utf8(encode_utf8(s).subrange(0, n as int))
    }
}

/// Whether cutting `s` after `n` bytes lands on a character boundary (or past the end).
pub open spec fn cuttable(s: Seq<char>, n: nat) -> bool {
    n >= blen(s) || is_char_boundary(encode_utf8(s), n as int)
}

/// Whether every character of `s` is ASCII (so each takes one byte).
pub open spec fn ascii_text(s: Seq<char>) -> bool {
    forall|i: int| 0 <= i < s.len() ==> (#[trigger] s[i] as u32) < 128
}

/// `n` copies of `c`.
pub open spec fn rep(c: char, n: nat) -> Seq<char> {
    Seq::new(n, |_i: int| c)
}

/// `n` spaces.
pub open spec fn blanks(n: nat) -> Seq<char> {
    rep(' ', n)
}

/// `n - m`, or 0 when `m >= n` (usize::saturating_sub on naturals).
pub open spec fn sat_sub(n: int, m: int) -> nat {
    if n > m { (n - m) as nat } else { 0 }
}

/// `a + b`, or `usize::MAX` when the sum does not fit.
pub open spec fn sat_add(a: usize, b: usize) -> usize {
    if a + b > usize::MAX { usize::MAX } else { (a + b) as usize }
}

/// `v` clamped into `[lo, hi]`.
pub open spec fn clamp_u8(v: u8, lo: u8, hi: u8) -> u8 {
    if v < lo { lo } else if v > hi { hi } else { v }
}

/// Right-align `s` in a field of `w` characters (the `{:>w$}` format).
pub open spec fn pad_left(s: Seq<char>, w: nat) -> Seq<char> {
    blanks(sat_sub(w as int, s.len() as int)) + s
}

/// Left-align `s` in a field of `w` characters (the `{:<w$}` format).
pub open spec fn pad_right(s: Seq<char>, w: nat) -> Seq<char> {
    s + blanks(sat_sub(w as int, s.len() as int))
}

/// Center `s` in a field of `w` characters (the `{:^w$}` format: the extra space goes right).
pub open spec fn pad_center(s: Seq<char>, w: nat) -> Seq<char> {
    let pad = sat_sub(w as int, s.len() as int);
    blanks(pad / 2) + s + blanks((pad - pad / 2) as nat)
}

/// `a + b`, saturating at `usize::MAX`.
pub fn add_sat(a: usize, b: usize) -> (r: usize)
    ensures
        r == sat_add(a, b),
{
    if a > usize::MAX - b { usize::MAX } else { a + b }
}

/// `v` clamped into `[lo, hi]`.
pub fn clamp8(v: u8, lo: u8, hi: u8) -> (r: u8)
    requires
        lo <= hi,
    ensures
        r == clamp_u8(v, lo, hi),
{
    if v < lo { lo } else if v > hi { hi } else { v }
}

/// Append one character (`String::push`).
#[verifier::external_body]
pub(crate) fn push_char(s: &mut String, c: char)
    ensures
        final(s)@ == old(s)@.push(c),
{
    s.push(c);
}

/// Append a string slice.
pub fn push_str(s: &mut String, t: &str)
    ensures
        final(s)@ == old(s)@ + t@,
{
    s.append(t);
}

/// String equality on slices, character by character.
pub(crate) fn str_eq(a: &str, b: &str) -> (r: bool)
    ensures
        r == (a@ == b@),
{
    let n = a.unicode_len();
    if n != b.unicode_len() {
        return false;
    }
    let mut i: usize = 0;
    while i < n
        invariant
            n == a@.len() == b@.len(),
            i <= n,
            forall|j: int| 0 <= j < i ==> a@[j] == b@[j],
        decreases n - i,
    {
        if a.get_char(i) != b.get_char(i) {
            return false;
        }
        i = i + 1;
    }
    assert(a@ =~= b@);
    true
}

/// An owned copy of a slice.
pub fn owned(s: &str) -> (r: String)
    ensures
        r@ == s@,
{
    s.to_owned()
}

/// Byte length of a string slice.
pub fn byte_len(s: &str) -> (n: usize)
    ensures
        n == blen(s@),
{
    s.len()
}

/// `n` copies of `c` as a string.
pub fn repeat_char(c: char, n: usize) -> (r: String)
    ensures
        r@ == rep(c, n as nat),
{
    let mut r = String::new();
    let mut i: usize = 0;
    while i < n
        invariant
            i <= n,
            r@ == rep(c, i as nat),
        decreases n - i,
    {
        push_char(&mut r, c);
        i = i + 1;
        assert(r@ =~= rep(c, i as nat));
    }
    r
}

/// Append `n` copies of `c`.
pub fn push_rep(s: &mut String, c: char, n: usize)
    ensures
        final(s)@ == old(s)@ + rep(c, n as nat),
{
    let mut i: usize = 0;
    while i < n
        invariant
            i <= n,
            s@ == old(s)@ + rep(c, i as nat),
        decreases n - i,
    {
        push_char(s, c);
        i = i + 1;
        assert(s@ =~= old(s)@ + rep(c, i as nat));
    }
}

/// The first `n` bytes of `s` (the slice `&s[..n]` when `s` is longer).
pub fn truncate_bytes(s: &str, n: usize) -> (r: &str)
    requires
        cuttable(s@, n as nat),
    ensures
        r@ == take_bytes(s@, n as nat),
        blen(r@) == if n >= blen(s@) { blen(s@) } else { n },
{
    if s.len() > n {
        let (a, _b) = s.split_at(n);
        proof {
            assert(encode_utf8(a@) =~= encode_utf8(s@).subrange(0, n as int));
            encode_utf8_decode_utf8(a@);
        }
        a
    } else {
        s
    }
}

/// Whether `s` can be cut after `n` bytes: past its end or on a character boundary.
pub fn can_cut(s: &str, n: usize) -> (b: bool)
    ensures
        b == cuttable(s@, n as nat),
{
    s.len() <= n || s.is_char_boundary(n)
}

/// Number of characters of `s`.
pub fn char_count(s: &str) -> (n: usize)
    ensures
        n == s@.len(),
{
    s.unicode_len()
}

/// Append `s` right-aligned in a field of `w` characters.
pub fn push_pad_left(out: &mut String, s: &str, w: usize)
    ensures
        final(out)@ == old(out)@ + pad_left(s@, w as nat),
{
    let len = char_count(s);
    let pad = if w > len { w - len } else { 0 };
    push_rep(out, ' ', pad);
    push_str(out, s);
    assert(out@ =~= old(out)@ + pad_left(s@, w as nat));
}

/// Append `s` left-aligned in a field of `w` characters.
pub fn push_pad_right(out: &mut String, s: &str, w: usize)
    ensures
        final(out)@ == old(out)@ + pad_right(s@, w as nat),
{
    let len = char_count(s);
    let pad = if w > len { w - len } else { 0 };
    push_str(out, s);
    push_rep(out, ' ', pad);
    assert(out@ =~= old(out)@ + pad_right(s@, w as nat));
}

/// Append `s` centered in a field of `w` characters.
pub fn push_pad_center(out: &mut String, s: &str, w: usize)
    ensures
        final(out)@ == old(out)@ + pad_center(s@, w as nat),
{
    let len = char_count(s);
    let pad = if w > len { w - len } else { 0 };
    push_rep(out, ' ', pad / 2);
    push_str(out, s);
    push_rep(out, ' ', pad - pad / 2);
    assert(out@ =~= old(out)@ + pad_center(s@, w as nat));
}

/// Whether `c` has the Unicode `White_Space` property (`char::is_whitespace`).
pub open spec fn is_white_space(c: char) -> bool {
    ('\u{9}' <= c <= '\u{d}') || c == ' ' || c == '\u{85}' || c == '\u{a0}' || c == '\u{1680}'
        || ('\u{2000}' <= c <= '\u{200a}') || c == '\u{2028}' || c == '\u{2029}' || c == '\u{202f}'
        || c == '\u{205f}' || c == '\u{3000}'
}

/// Whether every character of `s` is white space (so `s.trim()` is empty).
pub open spec fn is_blank(s: Seq<char>) -> bool {
    forall|i: int| 0 <= i < s.len() ==> is_white_space(#[trigger] s[i])
}

/// Whether `c` has the Unicode `White_Space` property.
pub fn white_space(c: char) -> (b: bool)
    ensures
        b == is_white_space(c),
{
    ('\u{9}' <= c && c <= '\u{d}') || c == ' ' || c == '\u{85}' || c == '\u{a0}' || c == '\u{1680}'
        || ('\u{2000}' <= c && c <= '\u{200a}') || c == '\u{2028}' || c == '\u{2029}' || c == '\u{202f}'
        || c == '\u{205f}' || c == '\u{3000}'
}

/// Whether `s` holds only white space (`s.trim().is_empty()`).
pub fn blank(s: &str) -> (b: bool)
    ensures
        b == is_blank(s@),
{
    let n = s.unicode_len();
    let mut i: usize = 0;
    while i < n
        invariant
            i <= n,
            n == s@.len(),
            forall|j: int| 0 <= j < i ==> is_white_space(#[trigger] s@[j]),
        decreases n - i,
    {
        let c = s.get_char(i);
        if !white_space(c) {
            return false;
        }
        i = i + 1;
    }
    true
}

/// Unicode lowercase of `s` (what `str::to_lowercase` returns).
pub uninterp spec fn lowercase(s: Seq<char>) -> Seq<char>;

/// Unicode uppercase of `s` (what `str::to_uppercase` returns).
pub uninterp spec fn uppercase(s: Seq<char>) -> Seq<char>;

/// `str::to_lowercase`: the Unicode lowercase of `s` (character by
/// character, except that a final capital sigma becomes a final small sigma).
#[verifier::external_body]
pub(crate) fn to_lower(s: &str) -> (r: String)
    ensures
        r@ == lowercase(s@),
{
    s.to_lowercase()
}

/// `str::to_uppercase`: the Unicode uppercase mapping of every character.
#[verifier::external_body]
pub(crate) fn to_upper(s: &str) -> (r: String)
    ensures
        r@ == uppercase(s@),
{
    s.to_uppercase()
}

/// The characters of `s`.
pub fn to_chars(s: &str) -> (v: Vec<char>)
    ensures
        v@ == s@,
{
    let n = s.unicode_len();
    let mut v: Vec<char> = Vec::new();
    let mut i: usize = 0;
    while i < n
        invariant
            i <= n,
            n == s@.len(),
            v@ == s@.subrange(0, i as int),
        decreases n - i,
    {
        v.push(s.get_char(i));
        i = i + 1;
        assert(v@ =~= s@.subrange(0, i as int));
    }
    assert(s@.subrange(0, n as int) =~= s@);
    v
}

/// Leftmost, non-overlapping replacement of every occurrence of a non-empty
/// `pat` in `s` by `rep` (what `str::replace` does).
pub open spec fn replace_all(s: Seq<char>, pat: Seq<char>, rep: Seq<char>) -> Seq<char>
    recommends
        pat.len() > 0,
    decreases s.len(),
{
    if pat.len() == 0 || s.len() < pat.len() {
        s
    } else if s.take(pat.len() as int) == pat {
        rep + replace_all(s.skip(pat.len() as int), pat, rep)
    } else {
        seq![s[0]] + replace_all(s.skip(1), pat, rep)
    }
}

/// Whether `pat` occurs in `s`.
pub open spec fn occurs_in(s: Seq<char>, pat: Seq<char>) -> bool {
    exists|i: int| 0 <= i && i + pat.len() <= s.len() && #[trigger] s.subrange(i, i + pat.len()) == pat
}

/// Replacing a pattern that does not occur leaves the text unchanged.
pub proof fn lemma_replace_absent(s: Seq<char>, pat: Seq<char>, rep: Seq<char>)
    requires
        pat.len() > 0,
        !occurs_in(s, pat),
    ensures
        replace_all(s, pat, rep) == s,
    decreases s.len(),
{
    if s.len() >= pat.len() {
        let z: int = 0;
        assert(s.subrange(z, z + pat.len()) != pat);
        assert(s.take(pat.len() as int) =~= s.subrange(z, z + pat.len()));
        let t = s.skip(1);
        assert forall|i: int| 0 <= i && i + pat.len() <= t.len() implies #[trigger] t.subrange(i, i + pat.len()) != pat by {
            assert(t.subrange(i, i + pat.len()) =~= s.subrange(i + 1, i + 1 + pat.len()));
        }
        lemma_replace_absent(t, pat, rep);
        assert(replace_all(s, pat, rep) == seq![s[0]] + replace_all(t, pat, rep));
        assert(seq![s[0]] + t =~= s);
    }
}

fn matches_at(s: &Vec<char>, i: usize, pat: &Vec<char>) -> (b: bool)
    requires
        i + pat.len() <= s.len(),
    ensures
        b == (s@.skip(i as int).take(pat.len() as int) == pat@),
{
    let mut j: usize = 0;
    while j < pat.len()
        invariant
            j <= pat.len(),
            i + pat.len() <= s.len(),
            forall|k: int| 0 <= k < j ==> s@[i + k] == pat@[k],
        decreases pat.len() - j,
    {
        if s[i + j] != pat[j] {
            assert(s@.skip(i as int).take(pat.len() as int)[j as int] != pat@[j as int]);
            return false;
        }
        j = j + 1;
    }
    assert(s@.skip(i as int).take(pat.len() as int) =~= pat@);
    true
}

/// `s` with every occurrence of the non-empty `pat` replaced by `rep`.
pub fn replace(s: &str, pat: &str, rep: &str) -> (r: String)
    requires
        pat@.len() > 0,
    ensures
        r@ == replace_all(s@, pat@, rep@),
{
    let cs = to_chars(s);
    let ps = to_chars(pat);
    let n = cs.len();
    let m = ps.len();
    let mut out = String::new();
    let mut i: usize = 0;
    assert(s@.skip(0) =~= s@);
    assert(out@ + replace_all(s@.skip(0), pat@, rep@) =~= replace_all(s@, pat@, rep@));
    while i < n
        invariant
            i <= n,
            n == s@.len(),
            m == pat@.len(),
            m > 0,
            cs@ == s@,
            ps@ == pat@,
            out@ + replace_all(s@.skip(i as int), pat@, rep@) == replace_all(s@, pat@, rep@),
        decreases n - i,
    {
        let ghost rest = s@.skip(i as int);
        if n - i >= m && matches_at(&cs, i, &ps) {
            assert(rest.take(m as int) == pat@);
            assert(rest.skip(m as int) =~= s@.skip(i + m));
            push_str(&mut out, rep);
            i = i + m;
        } else {
            assert(rest.skip(1) =~= s@.skip(i + 1));
            if n - i >= m {
                assert(rest.take(m as int) != pat@);
            }
            assert(replace_all(rest, pat@, rep@) == seq![rest[0]] + replace_all(rest.skip(1), pat@, rep@));
            push_char(&mut out, cs[i]);
            i = i + 1;
        }
    }
    assert(s@.skip(n as int) =~= Seq::<char>::empty());
    assert(out@ =~= out@ + replace_all(s@.skip(n as int), pat@, rep@));
    out
}

} // verus!
