//! Text as sequences of characters: scanning, trimming, splitting into lines
//! and words.
//!
//! Every contract here speaks of `Seq<char>`, the view of `str` and `String`.

use vstd::prelude::*;

verus! {

/// Whether `c` has the Unicode `White_Space` property, as `char::is_whitespace`
/// reports it.
pub uninterp spec fn white_space(c: char) -> bool;

/// The lower-case form of a text, as `str::to_lowercase` computes it.
pub uninterp spec fn lowercase(s: Seq<char>) -> Seq<char>;

/// Calls `char::is_whitespace`. Trusted: the result is the `White_Space`
/// property of `c`, which this library names `white_space` and does not define.
#[verifier::external_body]
fn is_whitespace(c: char) -> (r: bool)
    ensures
        r == white_space(c),
{
    c.is_whitespace()
}

/// Calls `str::to_lowercase`. Trusted: the result depends on the text alone;
/// this library names it `lowercase` and does not define it.
#[verifier::external_body]
fn to_lowercase(s: &str) -> (r: String)
    ensures
        r@ == lowercase(s@),
{
    s.to_lowercase()
}

/// Calls `String::push`. Trusted: the text afterwards is the text before with
/// `c` at its end.
#[verifier::external_body]
fn push_char(s: &mut String, c: char)
    ensures
        final(s)@ == old(s)@.push(c),
{
    s.push(c)
}

/// The text of an optional string.
pub open spec fn opt_text(o: Option<String>) -> Option<Seq<char>> {
    match o {
        Some(s) => Some(s@),
        None => None,
    }
}

/// A copy of an optional text.
pub fn clone_text(o: &Option<String>) -> (r: Option<String>)
    ensures
        opt_text(r) == opt_text(*o),
{
    match o {
        Some(s) => Some(s.clone()),
        None => None,
    }
}

/// The characters of `s`, in order.
pub fn chars_of(s: &str) -> (v: Vec<char>)
    ensures
        v@ == s@,
{
    let mut v: Vec<char> = Vec::new();
    for c in it: s.chars()
        invariant
            v@ == it.seq().take(it.index() as int),
            it.seq() == s@,
    {
        v.push(c);
    }
    v
}

/// The characters of `s` from position `from` up to position `to`.
pub(crate) fn slice_of(s: &str, from: usize, to: usize) -> (r: String)
    requires
        from <= to <= s@.len(),
    ensures
        r@ == s@.subrange(from as int, to as int),
{
    s.substring_char(from, to).to_string()
}

/// Whether two texts hold the same characters.
pub fn same_text(a: &str, b: &str) -> (r: bool)
    ensures
        r == (a@ == b@),
{
    let x = chars_of(a);
    let y = chars_of(b);
    if x.len() != y.len() {
        return false;
    }
    let mut i: usize = 0;
    while i < x.len()
        invariant
            i <= x.len(),
            x.len() == y.len(),
            x@ == a@,
            y@ == b@,
            forall|j: int| 0 <= j < i ==> x@[j] == y@[j],
        decreases x.len() - i,
    {
        if x[i] != y[i] {
            assert(a@[i as int] != b@[i as int]);
            return false;
        }
        i += 1;
    }
    assert(x@ =~= y@);
    true
}

/// The first position at or after `i` where `c` stands in `s`, or the length of
/// `s` if there is none.
pub open spec fn find_from(s: Seq<char>, c: char, i: int) -> int
    decreases s.len() - i,
{
    if i < 0 || i >= s.len() {
        s.len() as int
    } else if s[i] == c {
        i
    } else {
        find_from(s, c, i + 1)
    }
}

/// `find_from` lands on `c` or on the end, and passes no `c` on the way.
pub proof fn lemma_find_from(s: Seq<char>, c: char, i: int)
    requires
        0 <= i <= s.len(),
    ensures
        i <= find_from(s, c, i) <= s.len(),
        find_from(s, c, i) < s.len() ==> s[find_from(s, c, i)] == c,
        forall|j: int| i <= j < find_from(s, c, i) ==> s[j] != c,
    decreases s.len() - i,
{
    if i < s.len() && s[i] != c {
        lemma_find_from(s, c, i + 1);
    }
}

/// Computes `find_from` on a vector of characters.
pub(crate) fn scan_to(cs: &Vec<char>, c: char, from: usize) -> (r: usize)
    requires
        from <= cs.len(),
    ensures
        r == find_from(cs@, c, from as int),
        from <= r <= cs.len(),
{
    let mut i: usize = from;
    while i < cs.len() && cs[i] != c
        invariant
            from <= i <= cs.len(),
            find_from(cs@, c, from as int) == find_from(cs@, c, i as int),
        decreases cs.len() - i,
    {
        i += 1;
    }
    proof {
        lemma_find_from(cs@, c, i as int);
    }
    i
}

/// Whether `s` begins with `pat`.
pub open spec fn has_prefix(s: Seq<char>, pat: Seq<char>) -> bool {
    pat.len() <= s.len() && s.subrange(0, pat.len() as int) == pat
}

/// `s` without every leading repetition of `pat`.
pub open spec fn strip_leading(s: Seq<char>, pat: Seq<char>) -> Seq<char>
    decreases s.len(),
{
    if pat.len() > 0 && has_prefix(s, pat) {
        strip_leading(s.subrange(pat.len() as int, s.len() as int), pat)
    } else {
        s
    }
}

/// Whether the characters of `cs` from `from` up to `to` begin with `pat`.
pub(crate) fn span_has_prefix(cs: &Vec<char>, from: usize, to: usize, pat: &Vec<char>) -> (r: bool)
    requires
        from <= to <= cs.len(),
    ensures
        r == has_prefix(cs@.subrange(from as int, to as int), pat@),
{
    let ghost s = cs@.subrange(from as int, to as int);
    if pat.len() > to - from {
        return false;
    }
    let mut k: usize = 0;
    while k < pat.len()
        invariant
            k <= pat.len() <= to - from,
            from <= to <= cs.len(),
            s == cs@.subrange(from as int, to as int),
            forall|j: int| 0 <= j < k ==> s[j] == pat@[j],
        decreases pat.len() - k,
    {
        if cs[from + k] != pat[k] {
            assert(s.subrange(0, pat.len() as int)[k as int] == s[k as int]);
            return false;
        }
        k += 1;
    }
    assert(s.subrange(0, pat.len() as int) =~= pat@);
    true
}

/// Where the span from `from` up to `to` begins once every leading repetition
/// of `pat` is passed over.
pub(crate) fn skip_leading(cs: &Vec<char>, from: usize, to: usize, pat: &Vec<char>) -> (r: usize)
    requires
        from <= to <= cs.len(),
        pat.len() > 0,
    ensures
        from <= r <= to,
        cs@.subrange(r as int, to as int) == strip_leading(
            cs@.subrange(from as int, to as int),
            pat@,
        ),
{
    let mut i: usize = from;
    while span_has_prefix(cs, i, to, pat)
        invariant
            from <= i <= to <= cs.len(),
            pat.len() > 0,
            strip_leading(cs@.subrange(from as int, to as int), pat@) == strip_leading(
                cs@.subrange(i as int, to as int),
                pat@,
            ),
        decreases to - i,
    {
        proof {
            let s = cs@.subrange(i as int, to as int);
            assert(s.subrange(pat.len() as int, s.len() as int) =~= cs@.subrange(
                i + pat.len(),
                to as int,
            ));
        }
        i += pat.len();
    }
    i
}

/// The views of a sequence of strings.
pub open spec fn texts(v: Seq<String>) -> Seq<Seq<char>> {
    v.map_values(|s: String| s@)
}

/// A line without the carriage return that stood before its line feed.
pub open spec fn without_cr(line: Seq<char>) -> Seq<char> {
    if line.len() > 0 && line.last() == '\r' {
        line.drop_last()
    } else {
        line
    }
}

/// The lines of `s` from position `i` on. A line ends at a line feed, which is
/// not part of it, nor is a carriage return just before that line feed. What
/// follows the last line feed is a line only if it is not empty.
pub open spec fn lines_from(s: Seq<char>, i: int) -> Seq<Seq<char>>
    decreases s.len() - i,
{
    if i < 0 || i >= s.len() {
        Seq::empty()
    } else {
        let e = find_from(s, '\n', i);
        if e >= s.len() {
            seq![s.subrange(i, s.len() as int)]
        } else {
            proof {
                lemma_find_from(s, '\n', i);
            }
            seq![without_cr(s.subrange(i, e))] + lines_from(s, e + 1)
        }
    }
}

/// The lines of a text.
pub open spec fn lines_of(s: Seq<char>) -> Seq<Seq<char>> {
    lines_from(s, 0)
}

/// Splits a text into its lines.
pub fn lines(s: &str) -> (r: Vec<String>)
    ensures
        texts(r@) == lines_of(s@),
{
    let cs = chars_of(s);
    let mut out: Vec<String> = Vec::new();
    let mut i: usize = 0;
    while i < cs.len()
        invariant
            i <= cs.len(),
            cs@ == s@,
            texts(out@) + lines_from(cs@, i as int) == lines_of(cs@),
        decreases cs.len() - i,
    {
        let e = scan_to(&cs, '\n', i);
        let ghost before = out@;
        if e >= cs.len() {
            let line = slice_of(s, i, e);
            out.push(line);
            assert(texts(out@) =~= texts(before) + seq![line@]);
            assert(lines_from(cs@, cs.len() as int) =~= Seq::<Seq<char>>::empty());
            i = cs.len();
        } else {
            let end = if e > i && cs[e - 1] == '\r' {
                e - 1
            } else {
                e
            };
            let line = slice_of(s, i, end);
            assert(line@ == without_cr(cs@.subrange(i as int, e as int))) by {
                let whole = cs@.subrange(i as int, e as int);
                if e > i && cs@[e - 1] == '\r' {
                    assert(whole.drop_last() =~= cs@.subrange(i as int, e - 1));
                }
            }
            out.push(line);
            assert(texts(out@) =~= texts(before) + seq![line@]);
            i = e + 1;
        }
    }
    assert(lines_from(cs@, i as int) =~= Seq::<Seq<char>>::empty());
    out
}

/// Whether every character of `s` is white space.
pub open spec fn is_blank(s: Seq<char>) -> bool {
    forall|i: int| 0 <= i < s.len() ==> white_space(#[trigger] s[i])
}

/// The first position at or after `i` that holds no white space, or the length
/// of `s`.
pub open spec fn skip_white(s: Seq<char>, i: int) -> int
    decreases s.len() - i,
{
    if i < 0 || i >= s.len() {
        s.len() as int
    } else if !white_space(s[i]) {
        i
    } else {
        skip_white(s, i + 1)
    }
}

/// The first position at or after `i` that holds white space, or the length of
/// `s`.
pub open spec fn skip_word(s: Seq<char>, i: int) -> int
    decreases s.len() - i,
{
    if i < 0 || i >= s.len() {
        s.len() as int
    } else if white_space(s[i]) {
        i
    } else {
        skip_word(s, i + 1)
    }
}

/// The length of `s` up to `n` once the white space that ends there is cut off.
pub open spec fn drop_white(s: Seq<char>, n: int) -> int
    decreases n,
{
    if n <= 0 || n > s.len() {
        0
    } else if !white_space(s[n - 1]) {
        n
    } else {
        drop_white(s, n - 1)
    }
}

/// `s` without the white space at its two ends.
pub open spec fn trimmed(s: Seq<char>) -> Seq<char> {
    let a = skip_white(s, 0);
    let b = drop_white(s, s.len() as int);
    if a >= b {
        Seq::empty()
    } else {
        s.subrange(a, b)
    }
}

/// `skip_white` stays in range and passes white space only.
pub proof fn lemma_skip_white(s: Seq<char>, i: int)
    requires
        0 <= i <= s.len(),
    ensures
        i <= skip_white(s, i) <= s.len(),
        skip_white(s, i) < s.len() ==> !white_space(s[skip_white(s, i)]),
        forall|j: int| i <= j < skip_white(s, i) ==> white_space(#[trigger] s[j]),
    decreases s.len() - i,
{
    if i < s.len() && white_space(s[i]) {
        lemma_skip_white(s, i + 1);
    }
}

/// `skip_word` stays in range and passes no white space.
pub proof fn lemma_skip_word(s: Seq<char>, i: int)
    requires
        0 <= i <= s.len(),
    ensures
        i <= skip_word(s, i) <= s.len(),
        skip_word(s, i) < s.len() ==> white_space(s[skip_word(s, i)]),
        forall|j: int| i <= j < skip_word(s, i) ==> !white_space(#[trigger] s[j]),
    decreases s.len() - i,
{
    if i < s.len() && !white_space(s[i]) {
        lemma_skip_word(s, i + 1);
    }
}

/// `drop_white` stays in range and cuts off white space only.
pub proof fn lemma_drop_white(s: Seq<char>, n: int)
    requires
        0 <= n <= s.len(),
    ensures
        0 <= drop_white(s, n) <= n,
        drop_white(s, n) > 0 ==> !white_space(s[drop_white(s, n) - 1]),
        forall|j: int| drop_white(s, n) <= j < n ==> white_space(#[trigger] s[j]),
    decreases n,
{
    if n > 0 && white_space(s[n - 1]) {
        lemma_drop_white(s, n - 1);
    }
}

/// A text is blank exactly when trimming leaves nothing of it.
pub proof fn lemma_blank_iff_trimmed_empty(s: Seq<char>)
    ensures
        is_blank(s) <==> trimmed(s).len() == 0,
{
    lemma_skip_white(s, 0);
    lemma_drop_white(s, s.len() as int);
    let a = skip_white(s, 0);
    let b = drop_white(s, s.len() as int);
    if is_blank(s) {
        if a < s.len() {
            assert(white_space(s[a]));
        }
    } else {
        let k = choose|k: int| 0 <= k < s.len() && !white_space(#[trigger] s[k]);
        assert(a <= k);
        assert(k < b);
    }
}

/// Whether a text is tight: not empty, and without white space at its two
/// ends.
pub open spec fn is_tight(s: Seq<char>) -> bool {
    s.len() > 0 && !white_space(s[0]) && !white_space(s.last())
}

/// Trimming leaves a tight text as it is.
pub proof fn lemma_trim_leaves_tight_text(s: Seq<char>)
    requires
        is_tight(s),
    ensures
        trimmed(s) == s,
        !is_blank(s),
{
    assert(s.subrange(0, s.len() as int) =~= s);
}

/// Computes `skip_white`.
fn scan_white(cs: &Vec<char>, from: usize) -> (r: usize)
    requires
        from <= cs.len(),
    ensures
        r == skip_white(cs@, from as int),
        from <= r <= cs.len(),
{
    let mut i: usize = from;
    while i < cs.len() && is_whitespace(cs[i])
        invariant
            from <= i <= cs.len(),
            skip_white(cs@, from as int) == skip_white(cs@, i as int),
        decreases cs.len() - i,
    {
        i += 1;
    }
    i
}

/// Computes `skip_word`.
fn scan_word(cs: &Vec<char>, from: usize) -> (r: usize)
    requires
        from <= cs.len(),
    ensures
        r == skip_word(cs@, from as int),
        from <= r <= cs.len(),
{
    let mut i: usize = from;
    while i < cs.len() && !is_whitespace(cs[i])
        invariant
            from <= i <= cs.len(),
            skip_word(cs@, from as int) == skip_word(cs@, i as int),
        decreases cs.len() - i,
    {
        i += 1;
    }
    i
}

/// Computes `drop_white`.
fn scan_back_white(cs: &Vec<char>, to: usize) -> (r: usize)
    requires
        to <= cs.len(),
    ensures
        r == drop_white(cs@, to as int),
        r <= to,
{
    let mut n: usize = to;
    while n > 0 && is_whitespace(cs[n - 1])
        invariant
            n <= to <= cs.len(),
            drop_white(cs@, to as int) == drop_white(cs@, n as int),
        decreases n,
    {
        n -= 1;
    }
    n
}

/// Whether a text holds nothing but white space.
pub fn is_blank_text(s: &str) -> (r: bool)
    ensures
        r == is_blank(s@),
{
    let cs = chars_of(s);
    let a = scan_white(&cs, 0);
    proof {
        lemma_skip_white(cs@, 0);
        if a < cs.len() {
            assert(!white_space(s@[a as int]));
        }
    }
    a >= cs.len()
}

/// A text without the white space at its two ends.
pub fn trim(s: &str) -> (r: String)
    ensures
        r@ == trimmed(s@),
{
    let cs = chars_of(s);
    let a = scan_white(&cs, 0);
    let b = scan_back_white(&cs, cs.len());
    if a >= b {
        String::new()
    } else {
        slice_of(s, a, b)
    }
}

/// The words of `s` from position `i` on: the longest runs of characters that
/// are not white space.
pub open spec fn words_from(s: Seq<char>, i: int) -> Seq<Seq<char>>
    decreases s.len() - i,
{
    if i < 0 || i >= s.len() {
        Seq::empty()
    } else if white_space(s[i]) {
        words_from(s, i + 1)
    } else {
        proof {
            lemma_skip_word(s, i);
        }
        seq![s.subrange(i, skip_word(s, i))] + words_from(s, skip_word(s, i))
    }
}

/// The words of a text.
pub open spec fn words_of(s: Seq<char>) -> Seq<Seq<char>> {
    words_from(s, 0)
}

/// The pieces one after another, with `sep` between each two neighbours.
pub open spec fn joined(pieces: Seq<Seq<char>>, sep: Seq<char>) -> Seq<char>
    decreases pieces.len(),
{
    if pieces.len() == 0 {
        Seq::empty()
    } else if pieces.len() == 1 {
        pieces[0]
    } else {
        joined(pieces.drop_last(), sep) + sep + pieces.last()
    }
}

/// The words of `s` with one hyphen between each two neighbours.
pub open spec fn hyphenated(s: Seq<char>) -> Seq<char> {
    joined(words_of(s), seq!['-'])
}

/// The words of a text joined by single hyphens: white space at the ends goes,
/// and every run of white space inside becomes one hyphen.
pub fn hyphenate(s: &str) -> (r: String)
    ensures
        r@ == hyphenated(s@),
{
    let cs = chars_of(s);
    let mut out = String::new();
    let ghost mut found: Seq<Seq<char>> = Seq::empty();
    let mut first = true;
    let mut i: usize = 0;
    proof {
        reveal_strlit("-");
        assert("-"@ =~= seq!['-']);
    }
    while i < cs.len()
        invariant
            i <= cs.len(),
            cs@ == s@,
            "-"@ == seq!['-'],
            first == (found.len() == 0),
            out@ == joined(found, seq!['-']),
            found + words_from(cs@, i as int) == words_of(cs@),
        decreases cs.len() - i,
    {
        if is_whitespace(cs[i]) {
            i += 1;
        } else {
            let e = scan_word(&cs, i);
            proof {
                lemma_skip_word(cs@, i as int);
            }
            let word = slice_of(s, i, e);
            let ghost before = found;
            if !first {
                out.append("-");
            }
            out.append(word.as_str());
            first = false;
            proof {
                found = before.push(word@);
                assert(found.drop_last() =~= before);
                assert(found =~= before + seq![word@]);
                if before.len() == 0 {
                    assert(out@ =~= word@);
                }
            }
            i = e;
        }
    }
    proof {
        assert(words_from(cs@, i as int) =~= Seq::<Seq<char>>::empty());
        assert(found =~= words_of(cs@));
    }
    out
}

/// The lower-case form of a text.
pub fn lowercased(s: &str) -> (r: String)
    ensures
        r@ == lowercase(s@),
{
    to_lowercase(s)
}

/// Whether `pat` stands somewhere in `s`.
pub open spec fn contains_text(s: Seq<char>, pat: Seq<char>) -> bool {
    exists|i: int| 0 <= i <= s.len() - pat.len() && #[trigger] s.subrange(i, i + pat.len()) == pat
}

/// Whether `pat` stands somewhere in `s`.
pub fn text_contains(s: &str, pat: &str) -> (r: bool)
    ensures
        r == contains_text(s@, pat@),
{
    let cs = chars_of(s);
    let ps = chars_of(pat);
    if ps.len() > cs.len() {
        return false;
    }
    let last = cs.len() - ps.len();
    let mut i: usize = 0;
    while i < last
        invariant
            i <= last,
            last == cs.len() - ps.len(),
            cs@ == s@,
            ps@ == pat@,
            forall|j: int| 0 <= j < i ==> #[trigger] cs@.subrange(j, j + ps.len()) != ps@,
        decreases last - i,
    {
        let hit = span_has_prefix(&cs, i, cs.len(), &ps);
        proof {
            let rest = cs@.subrange(i as int, cs.len() as int);
            assert(rest.subrange(0, ps.len() as int) =~= cs@.subrange(i as int, i + ps.len()));
        }
        if hit {
            return true;
        }
        i += 1;
    }
    let hit = span_has_prefix(&cs, last, cs.len(), &ps);
    proof {
        let rest = cs@.subrange(last as int, cs.len() as int);
        assert(rest.subrange(0, ps.len() as int) =~= cs@.subrange(last as int, last + ps.len()));
    }
    hit
}

/// `s` with `c` at its end.
pub fn with_char(s: &str, c: char) -> (r: String)
    ensures
        r@ == s@.push(c),
{
    let mut out = s.to_string();
    push_char(&mut out, c);
    out
}

/// `s` without its last character; `s` itself where it is empty.
pub open spec fn without_last(s: Seq<char>) -> Seq<char> {
    if s.len() == 0 {
        s
    } else {
        s.drop_last()
    }
}

/// A text without its last character.
pub fn drop_last_char(s: &str) -> (r: String)
    ensures
        r@ == without_last(s@),
{
    let n = s.unicode_len();
    if n == 0 {
        s.to_string()
    } else {
        let r = slice_of(s, 0, n - 1);
        assert(r@ =~= s@.drop_last());
        r
    }
}

/// `head` followed by `tail`.
pub fn appended(head: &str, tail: &str) -> (r: String)
    ensures
        r@ == head@ + tail@,
{
    let mut s = head.to_string();
    s.append(tail);
    s
}

} // verus!
