//! Character-level text utilities shared by the parsers of this crate.
//!
//! Text is handled as `Vec<char>` in executable code and as `Seq<char>` in
//! specifications; every function here states its result over those views.
use vstd::prelude::*;

verus! {

/// Appending one character to a `String`.
pub assume_specification[ String::push ](s: &mut String, ch: char)
    ensures
        final(s)@ == old(s)@.push(ch),
;

// ---------------------------------------------------------------------------
// Whitespace and trimming
// ---------------------------------------------------------------------------

/// The Unicode `White_Space` characters, which is what `char::is_whitespace` tests.
pub open spec fn is_whitespace(c: char) -> bool {
    let u = c as u32;
    ||| 9 <= u <= 13
    ||| u == 32
    ||| u == 0x85
    ||| u == 0xA0
    ||| u == 0x1680
    ||| 0x2000 <= u <= 0x200A
    ||| u == 0x2028
    ||| u == 0x2029
    ||| u == 0x202F
    ||| u == 0x205F
    ||| u == 0x3000
}

/// `s` without its leading whitespace.
pub open spec fn trim_start(s: Seq<char>) -> Seq<char>
    decreases s.len(),
{
    if s.len() > 0 && is_whitespace(s[0]) {
        trim_start(s.drop_first())
    } else {
        s
    }
}

/// `s` without its trailing whitespace.
pub open spec fn trim_end(s: Seq<char>) -> Seq<char>
    decreases s.len(),
{
    if s.len() > 0 && is_whitespace(s.last()) {
        trim_end(s.drop_last())
    } else {
        s
    }
}

/// `s` without leading and trailing whitespace (`str::trim`).
pub open spec fn trim(s: Seq<char>) -> Seq<char> {
    trim_end(trim_start(s))
}

/// `p` is a prefix of `s` (`str::starts_with`).
pub open spec fn has_prefix(s: Seq<char>, p: Seq<char>) -> bool {
    p.len() <= s.len() && s.subrange(0, p.len() as int) == p
}

proof fn lemma_trim_start_shape(s: Seq<char>)
    ensures
        trim_start(s).len() > 0 ==> !is_whitespace(trim_start(s)[0]),
        exists|i: int| 0 <= i <= s.len() && trim_start(s) == #[trigger] s.subrange(i, s.len() as int),
    decreases s.len(),
{
    if s.len() > 0 && is_whitespace(s[0]) {
        lemma_trim_start_shape(s.drop_first());
        let i = choose|i: int|
            0 <= i <= s.drop_first().len() && trim_start(s.drop_first())
                == #[trigger] s.drop_first().subrange(i, s.drop_first().len() as int);
        assert(s.drop_first().subrange(i, s.drop_first().len() as int) == s.subrange(
            i + 1,
            s.len() as int,
        ));
    } else {
        assert(s.subrange(0, s.len() as int) == s);
    }
}

proof fn lemma_trim_end_shape(s: Seq<char>)
    ensures
        trim_end(s).len() > 0 ==> !is_whitespace(trim_end(s).last()),
        exists|j: int| 0 <= j <= s.len() && trim_end(s) == #[trigger] s.subrange(0, j),
    decreases s.len(),
{
    if s.len() > 0 && is_whitespace(s.last()) {
        lemma_trim_end_shape(s.drop_last());
        let j = choose|j: int|
            0 <= j <= s.drop_last().len() && trim_end(s.drop_last())
                == #[trigger] s.drop_last().subrange(0, j);
        assert(s.drop_last().subrange(0, j) == s.subrange(0, j));
    } else {
        assert(s.subrange(0, s.len() as int) == s);
    }
}

/// Trimming twice is trimming once.
pub proof fn lemma_trim_idempotent(s: Seq<char>)
    ensures
        trim(trim(s)) == trim(s),
{
    let u = trim_start(s);
    let t = trim_end(u);
    lemma_trim_start_shape(s);
    lemma_trim_end_shape(u);
    let j = choose|j: int| 0 <= j <= u.len() && t == #[trigger] u.subrange(0, j);
    if t.len() > 0 {
        assert(t[0] == u[0]);
    }
    assert(trim_start(t) == t);
    assert(trim_end(t) == t);
}

/// Whether `c` is a whitespace character.
pub fn char_is_whitespace(c: char) -> (b: bool)
    ensures
        b == is_whitespace(c),
{
    let u = c as u32;
    (9 <= u && u <= 13) || u == 32 || u == 0x85 || u == 0xA0 || u == 0x1680 || (0x2000 <= u && u
        <= 0x200A) || u == 0x2028 || u == 0x2029 || u == 0x202F || u == 0x205F || u == 0x3000
}

proof fn lemma_trim_start_skip(s: Seq<char>, i: int)
    requires
        0 <= i <= s.len(),
        forall|k: int| 0 <= k < i ==> is_whitespace(#[trigger] s[k]),
    ensures
        trim_start(s) == trim_start(s.subrange(i, s.len() as int)),
    decreases i,
{
    if i == 0 {
        assert(s.subrange(0, s.len() as int) == s);
    } else {
        assert(is_whitespace(s[0]));
        let t = s.drop_first();
        assert forall|k: int| 0 <= k < i - 1 implies is_whitespace(#[trigger] t[k]) by {
            assert(t[k] == s[k + 1]);
        }
        lemma_trim_start_skip(t, i - 1);
        assert(t.subrange(i - 1, t.len() as int) == s.subrange(i, s.len() as int));
    }
}

proof fn lemma_trim_end_cut(s: Seq<char>, j: int)
    requires
        0 <= j <= s.len(),
        forall|k: int| j <= k < s.len() ==> is_whitespace(#[trigger] s[k]),
    ensures
        trim_end(s) == trim_end(s.subrange(0, j)),
    decreases s.len() - j,
{
    if j == s.len() {
        assert(s.subrange(0, j) == s);
    } else {
        assert(is_whitespace(s.last()));
        let t = s.drop_last();
        assert forall|k: int| j <= k < t.len() implies is_whitespace(#[trigger] t[k]) by {
            assert(t[k] == s[k]);
        }
        lemma_trim_end_cut(t, j);
        assert(t.subrange(0, j) == s.subrange(0, j));
    }
}

/// `s` without leading and trailing whitespace.
pub fn trim_chars(s: &[char]) -> (r: Vec<char>)
    ensures
        r@ == trim(s@),
{
    let n = s.len();
    let mut i: usize = 0;
    while i < n && char_is_whitespace(s[i])
        invariant
            i <= n,
            n == s@.len(),
            forall|k: int| 0 <= k < i ==> is_whitespace(#[trigger] s@[k]),
        decreases n - i,
    {
        i = i + 1;
    }
    proof {
        lemma_trim_start_skip(s@, i as int);
    }
    let ghost t = s@.subrange(i as int, n as int);
    assert(trim_start(s@) == t) by {
        if t.len() > 0 {
            assert(t[0] == s@[i as int]);
        }
    }
    let mut j: usize = n;
    while j > i && char_is_whitespace(s[j - 1])
        invariant
            i <= j <= n,
            n == s@.len(),
            t == s@.subrange(i as int, n as int),
            forall|k: int| j <= k < n ==> is_whitespace(#[trigger] s@[k]),
        decreases j,
    {
        j = j - 1;
    }
    proof {
        let jj = j - i;
        assert forall|k: int| jj <= k < t.len() implies is_whitespace(#[trigger] t[k]) by {
            assert(t[k] == s@[k + i]);
        }
        lemma_trim_end_cut(t, jj as int);
        let u = t.subrange(0, jj as int);
        if u.len() > 0 {
            assert(u.last() == s@[j - 1]);
        }
        assert(trim_end(u) == u);
        assert(u == s@.subrange(i as int, j as int));
    }
    let mut r: Vec<char> = Vec::new();
    let mut k: usize = i;
    while k < j
        invariant
            i <= k <= j <= n,
            n == s@.len(),
            r@ == s@.subrange(i as int, k as int),
        decreases j - k,
    {
        r.push(s[k]);
        k = k + 1;
        assert(r@ == s@.subrange(i as int, k as int));
    }
    r
}

// ---------------------------------------------------------------------------
// Conversions between `str`, `String` and `Vec<char>`
// ---------------------------------------------------------------------------

/// The characters of `s`, in order.
pub fn chars_of(s: &str) -> (v: Vec<char>)
    ensures
        v@ == s@,
{
    let mut v: Vec<char> = Vec::new();
    for c in it: s.chars()
        invariant
            v@ == it.seq().take(it.index() as int),
            it.seq() == s@,
    {
        v.push(c);
    }
    assert(v@ == s@);
    v
}

/// A `String` holding the characters of `v`.
pub fn string_of(v: &[char]) -> (s: String)
    ensures
        s@ == v@,
{
    let mut s = String::new();
    let mut i: usize = 0;
    while i < v.len()
        invariant
            i <= v@.len(),
            s@ == v@.subrange(0, i as int),
        decreases v@.len() - i,
    {
        s.push(v[i]);
        i = i + 1;
        assert(s@ == v@.subrange(0, i as int));
    }
    assert(v@.subrange(0, v@.len() as int) == v@);
    s
}

/// Appends the characters of `b` to `a`.
pub fn extend_chars(a: &mut Vec<char>, b: &[char])
    ensures
        final(a)@ == old(a)@ + b@,
{
    let mut i: usize = 0;
    while i < b.len()
        invariant
            i <= b@.len(),
            a@ == old(a)@ + b@.subrange(0, i as int),
        decreases b@.len() - i,
    {
        a.push(b[i]);
        i = i + 1;
        assert(a@ == old(a)@ + b@.subrange(0, i as int));
    }
    assert(b@.subrange(0, b@.len() as int) == b@);
}

/// Whether `a` and `b` hold the same characters.
pub fn chars_eq(a: &[char], b: &[char]) -> (r: bool)
    ensures
        r == (a@ == b@),
{
    if a.len() != b.len() {
        return false;
    }
    let mut i: usize = 0;
    while i < a.len()
        invariant
            i <= a@.len(),
            a@.len() == b@.len(),
            forall|k: int| 0 <= k < i ==> a@[k] == b@[k],
        decreases a@.len() - i,
    {
        if a[i] != b[i] {
            return false;
        }
        i = i + 1;
    }
    assert(a@ == b@);
    true
}

/// Whether `a` holds the same characters as the text `b`.
pub fn chars_eq_str(a: &[char], b: &str) -> (r: bool)
    ensures
        r == (a@ == b@),
{
    let bv = chars_of(b);
    chars_eq(a, bv.as_slice())
}

/// Whether `p` is a prefix of `s`.
pub fn starts_with(s: &[char], p: &[char]) -> (r: bool)
    ensures
        r == has_prefix(s@, p@),
{
    if p.len() > s.len() {
        return false;
    }
    let mut i: usize = 0;
    while i < p.len()
        invariant
            i <= p@.len() <= s@.len(),
            forall|k: int| 0 <= k < i ==> s@[k] == p@[k],
        decreases p@.len() - i,
    {
        if s[i] != p[i] {
            assert(s@.subrange(0, p@.len() as int)[i as int] != p@[i as int]);
            return false;
        }
        i = i + 1;
    }
    assert(s@.subrange(0, p@.len() as int) == p@);
    true
}

/// The characters of `s` from index `from` on.
pub fn skip_chars(s: &[char], from: usize) -> (r: Vec<char>)
    requires
        from <= s@.len(),
    ensures
        r@ == s@.subrange(from as int, s@.len() as int),
{
    let mut r: Vec<char> = Vec::new();
    let mut k: usize = from;
    while k < s.len()
        invariant
            from <= k <= s@.len(),
            r@ == s@.subrange(from as int, k as int),
        decreases s@.len() - k,
    {
        r.push(s[k]);
        k = k + 1;
        assert(r@ == s@.subrange(from as int, k as int));
    }
    r
}

// ---------------------------------------------------------------------------
// ASCII case folding
// ---------------------------------------------------------------------------

/// `char::to_ascii_lowercase`.
pub open spec fn ascii_lower(c: char) -> char {
    if 'A' <= c <= 'Z' {
        ((c as u32) + 32) as char
    } else {
        c
    }
}

/// `str::eq_ignore_ascii_case`.
pub open spec fn eq_ignore_ascii_case(a: Seq<char>, b: Seq<char>) -> bool {
    a.len() == b.len() && forall|k: int| 0 <= k < a.len() ==> ascii_lower(a[k]) == ascii_lower(
        b[k],
    )
}

fn char_ascii_lower(c: char) -> (r: char)
    ensures
        r == ascii_lower(c),
{
    if 'A' <= c && c <= 'Z' {
        let u = ((c as u32) + 32) as u8;
        u as char
    } else {
        c
    }
}

/// Whether `a` and `b` are equal up to ASCII case.
pub fn chars_eq_ignore_ascii_case(a: &[char], b: &[char]) -> (r: bool)
    ensures
        r == eq_ignore_ascii_case(a@, b@),
{
    if a.len() != b.len() {
        return false;
    }
    let mut i: usize = 0;
    while i < a.len()
        invariant
            i <= a@.len(),
            a@.len() == b@.len(),
            forall|k: int| 0 <= k < i ==> ascii_lower(a@[k]) == ascii_lower(b@[k]),
        decreases a@.len() - i,
    {
        if char_ascii_lower(a[i]) != char_ascii_lower(b[i]) {
            return false;
        }
        i = i + 1;
    }
    true
}


// ---------------------------------------------------------------------------
// Splitting
// ---------------------------------------------------------------------------

/// The views of a vector of character vectors.
pub open spec fn views(v: Seq<Vec<char>>) -> Seq<Seq<char>> {
    v.map_values(|w: Vec<char>| w@)
}

/// The maximal runs of non-whitespace characters of `s`, in order
/// (`str::split_whitespace`).
pub open spec fn split_whitespace(s: Seq<char>) -> Seq<Seq<char>>
    decreases s.len(),
{
    if s.len() == 0 {
        seq![]
    } else {
        let p = split_whitespace(s.drop_last());
        let c = s.last();
        if is_whitespace(c) {
            p
        } else if s.len() == 1 || is_whitespace(s[s.len() - 2]) {
            p.push(seq![c])
        } else {
            p.update(p.len() - 1, p.last().push(c))
        }
    }
}

/// The maximal runs of non-whitespace characters of `s`.
pub fn split_whitespace_chars(s: &[char]) -> (r: Vec<Vec<char>>)
    ensures
        views(r@) == split_whitespace(s@),
{
    let mut words: Vec<Vec<char>> = Vec::new();
    let mut cur: Vec<char> = Vec::new();
    let mut in_word = false;
    let mut i: usize = 0;
    while i < s.len()
        invariant
            i <= s@.len(),
            in_word == (i > 0 && !is_whitespace(s@[i - 1])),
            in_word ==> split_whitespace(s@.subrange(0, i as int)) == views(words@).push(cur@),
            !in_word ==> split_whitespace(s@.subrange(0, i as int)) == views(words@),
        decreases s@.len() - i,
    {
        let c = s[i];
        let ghost pre = s@.subrange(0, i as int);
        let ghost pre2 = s@.subrange(0, i + 1);
        assert(pre2.drop_last() == pre);
        assert(pre2.last() == c);
        if i > 0 {
            assert(pre2[pre2.len() - 2] == s@[i - 1]);
        }
        if char_is_whitespace(c) {
            if in_word {
                let w = cur;
                words.push(w);
                cur = Vec::new();
                assert(views(words@) == views(old_words_helper(words@)).push(w@)) by {
                    assert(views(words@).drop_last() == views(words@.drop_last()));
                }
            }
            in_word = false;
        } else {
            if in_word {
                let ghost before = cur@;
                cur.push(c);
                assert(views(words@).push(cur@) == views(words@).push(before).update(
                    views(words@).len() as int,
                    before.push(c),
                ));
            } else {
                cur = Vec::new();
                cur.push(c);
                assert(cur@ == seq![c]);
            }
            in_word = true;
        }
        i = i + 1;
    }
    if in_word {
        let w = cur;
        words.push(w);
        assert(views(words@) == views(words@.drop_last()).push(w@));
    }
    assert(s@.subrange(0, s@.len() as int) == s@);
    words
}

spec fn old_words_helper(v: Seq<Vec<char>>) -> Seq<Vec<char>> {
    v.drop_last()
}

/// `s` cut at every `sep` (`str::split(sep)`); never empty.
pub open spec fn split_char(s: Seq<char>, sep: char) -> Seq<Seq<char>>
    decreases s.len(),
{
    if s.len() == 0 {
        seq![seq![]]
    } else {
        let p = split_char(s.drop_last(), sep);
        if s.last() == sep {
            p.push(seq![])
        } else {
            p.update(p.len() - 1, p.last().push(s.last()))
        }
    }
}

proof fn lemma_split_char_nonempty(s: Seq<char>, sep: char)
    ensures
        split_char(s, sep).len() > 0,
    decreases s.len(),
{
    if s.len() > 0 {
        lemma_split_char_nonempty(s.drop_last(), sep);
    }
}

/// `s` cut at every `sep`.
pub fn split_char_chars(s: &[char], sep: char) -> (r: Vec<Vec<char>>)
    ensures
        views(r@) == split_char(s@, sep),
{
    let mut parts: Vec<Vec<char>> = Vec::new();
    let mut cur: Vec<char> = Vec::new();
    let mut i: usize = 0;
    assert(s@.subrange(0, 0) == Seq::<char>::empty());
    assert(views(parts@).push(cur@) == seq![Seq::<char>::empty()]);
    while i < s.len()
        invariant
            i <= s@.len(),
            split_char(s@.subrange(0, i as int), sep) == views(parts@).push(cur@),
        decreases s@.len() - i,
    {
        let c = s[i];
        let ghost pre = s@.subrange(0, i as int);
        let ghost pre2 = s@.subrange(0, i + 1);
        assert(pre2.drop_last() == pre);
        assert(pre2.last() == c);
        let ghost vw = views(parts@);
        if c == sep {
            let w = cur;
            parts.push(w);
            cur = Vec::new();
            assert(views(parts@) == vw.push(w@)) by {
                assert(views(parts@.drop_last()) == vw);
            }
            assert(views(parts@).push(cur@) == vw.push(w@).push(seq![]));
        } else {
            let ghost before = cur@;
            cur.push(c);
            assert(vw.push(before).update(vw.len() as int, before.push(c)) == vw.push(cur@));
        }
        i = i + 1;
    }
    let w = cur;
    let ghost vw = views(parts@);
    parts.push(w);
    assert(views(parts@) == vw.push(w@)) by {
        assert(views(parts@.drop_last()) == vw);
    }
    assert(s@.subrange(0, s@.len() as int) == s@);
    parts
}

/// `s` cut after every `'\n'` (`str::split_inclusive('\n')`).
pub open spec fn split_inclusive_newline(s: Seq<char>) -> Seq<Seq<char>>
    decreases s.len(),
{
    if s.len() == 0 {
        seq![]
    } else {
        let p = split_inclusive_newline(s.drop_last());
        let c = s.last();
        if p.len() == 0 || p.last().last() == '\n' {
            p.push(seq![c])
        } else {
            p.update(p.len() - 1, p.last().push(c))
        }
    }
}

/// A segment without its final line ending (`"\n"` or `"\r\n"`).
pub open spec fn strip_line_ending(seg: Seq<char>) -> Seq<char> {
    if seg.len() > 0 && seg.last() == '\n' {
        let t = seg.drop_last();
        if t.len() > 0 && t.last() == '\r' {
            t.drop_last()
        } else {
            t
        }
    } else {
        seg
    }
}

/// The lines of `s` (`str::lines`).
pub open spec fn lines(s: Seq<char>) -> Seq<Seq<char>> {
    split_inclusive_newline(s).map_values(|seg: Seq<char>| strip_line_ending(seg))
}

proof fn lemma_split_inclusive_nonempty(s: Seq<char>)
    ensures
        s.len() > 0 ==> split_inclusive_newline(s).len() > 0,
        s.len() > 0 ==> split_inclusive_newline(s).last().len() > 0 && split_inclusive_newline(
            s,
        ).last().last() == s.last(),
    decreases s.len(),
{
    if s.len() > 0 {
        lemma_split_inclusive_nonempty(s.drop_last());
    }
}

fn split_inclusive_newline_chars(s: &[char]) -> (r: Vec<Vec<char>>)
    ensures
        views(r@) == split_inclusive_newline(s@),
{
    let mut segs: Vec<Vec<char>> = Vec::new();
    let mut cur: Vec<char> = Vec::new();
    let mut i: usize = 0;
    while i < s.len()
        invariant
            i <= s@.len(),
            (cur@.len() == 0) == (i == 0 || s@[i - 1] == '\n'),
            cur@.len() > 0 ==> cur@.last() == s@[i - 1],
            cur@.len() == 0 ==> split_inclusive_newline(s@.subrange(0, i as int)) == views(segs@),
            cur@.len() > 0 ==> split_inclusive_newline(s@.subrange(0, i as int)) == views(
                segs@,
            ).push(cur@),
        decreases s@.len() - i,
    {
        let c = s[i];
        let ghost pre = s@.subrange(0, i as int);
        let ghost pre2 = s@.subrange(0, i + 1);
        assert(pre2.drop_last() == pre);
        assert(pre2.last() == c);
        proof {
            lemma_split_inclusive_nonempty(pre);
            if i > 0 {
                assert(pre.last() == s@[i - 1]);
            }
        }
        if cur.len() == 0 {
            if c == '\n' {
                let mut w: Vec<char> = Vec::new();
                w.push(c);
                assert(w@ == seq![c]);
                segs.push(w);
                assert(views(segs@) == views(segs@.drop_last()).push(w@));
            } else {
                cur.push(c);
                assert(cur@ == seq![c]);
            }
        } else {
            let ghost before = cur@;
            let ghost vw = views(segs@);
            cur.push(c);
            assert(vw.push(before).update(vw.len() as int, before.push(c)) == vw.push(cur@));
            if c == '\n' {
                let w = cur;
                segs.push(w);
                cur = Vec::new();
                assert(views(segs@) == vw.push(w@)) by {
                    assert(segs@.drop_last() =~= old_words_helper(segs@));
                    assert(views(segs@.drop_last()) == vw);
                }
            }
        }
        i = i + 1;
    }
    if cur.len() > 0 {
        let w = cur;
        let ghost vw = views(segs@);
        segs.push(w);
        assert(views(segs@) == vw.push(w@)) by {
            assert(views(segs@.drop_last()) == vw);
        }
    }
    assert(s@.subrange(0, s@.len() as int) == s@);
    segs
}

fn strip_line_ending_chars(seg: &[char]) -> (r: Vec<char>)
    ensures
        r@ == strip_line_ending(seg@),
{
    let n = seg.len();
    let mut end = n;
    if n > 0 && seg[n - 1] == '\n' {
        end = n - 1;
        if end > 0 && seg[end - 1] == '\r' {
            end = end - 1;
        }
    }
    let mut r: Vec<char> = Vec::new();
    let mut k: usize = 0;
    while k < end
        invariant
            k <= end <= n,
            n == seg@.len(),
            r@ == seg@.subrange(0, k as int),
        decreases end - k,
    {
        r.push(seg[k]);
        k = k + 1;
        assert(r@ == seg@.subrange(0, k as int));
    }
    proof {
        if n > 0 && seg@.last() == '\n' {
            let t = seg@.drop_last();
            assert(t == seg@.subrange(0, n - 1));
            if t.len() > 0 && t.last() == '\r' {
                assert(t.drop_last() == seg@.subrange(0, n - 2));
            }
        } else {
            assert(seg@.subrange(0, n as int) == seg@);
        }
    }
    r
}

/// The lines of `s`.
pub fn lines_chars(s: &[char]) -> (r: Vec<Vec<char>>)
    ensures
        views(r@) == lines(s@),
{
    let segs = split_inclusive_newline_chars(s);
    let mut r: Vec<Vec<char>> = Vec::new();
    let mut i: usize = 0;
    while i < segs.len()
        invariant
            i <= segs@.len(),
            views(segs@) == split_inclusive_newline(s@),
            views(r@) == views(segs@).subrange(0, i as int).map_values(
                |seg: Seq<char>| strip_line_ending(seg),
            ),
        decreases segs@.len() - i,
    {
        let line = strip_line_ending_chars(segs[i].as_slice());
        let ghost vr = views(r@);
        r.push(line);
        assert(views(r@) == vr.push(line@)) by {
            assert(views(r@.drop_last()) == vr);
        }
        i = i + 1;
        assert(views(segs@).subrange(0, i as int).map_values(
            |seg: Seq<char>| strip_line_ending(seg),
        ) == vr.push(line@)) by {
            assert(views(segs@)[i - 1] == segs@[i - 1]@);
        }
    }
    assert(views(segs@).subrange(0, segs@.len() as int) == views(segs@));
    r
}

// ---------------------------------------------------------------------------
// Decimal numbers
// ---------------------------------------------------------------------------

/// The ASCII digit for `d < 10`.
pub open spec fn digit_char(d: nat) -> char {
    ((d + 48) as u8) as char
}

/// The decimal notation of `n`, without leading zeros.
pub open spec fn decimal(n: nat) -> Seq<char>
    decreases n,
{
    if n < 10 {
        seq![digit_char(n)]
    } else {
        decimal(n / 10).push(digit_char(n % 10))
    }
}

/// The decimal notation of an integer, with a leading `-` when negative.
pub open spec fn signed_decimal(i: int) -> Seq<char> {
    if i < 0 {
        seq!['-'] + decimal((-i) as nat)
    } else {
        decimal(i as nat)
    }
}

/// The decimal notation of `n`.
pub fn u64_decimal(n: u64) -> (r: Vec<char>)
    ensures
        r@ == decimal(n as nat),
    decreases n,
{
    let d = ((n % 10 + 48) as u8) as char;
    if n < 10 {
        let mut r: Vec<char> = Vec::new();
        r.push(d);
        assert(r@ == seq![d]);
        r
    } else {
        let mut r = u64_decimal(n / 10);
        r.push(d);
        r
    }
}

/// The decimal notation of `i`.
pub fn i64_decimal(i: i64) -> (r: Vec<char>)
    ensures
        r@ == signed_decimal(i as int),
{
    if i < 0 {
        let m: u64 = if i == i64::MIN {
            9223372036854775808u64
        } else {
            (-i) as u64
        };
        let mut r: Vec<char> = Vec::new();
        r.push('-');
        let digits = u64_decimal(m);
        extend_chars(&mut r, digits.as_slice());
        assert(r@ == seq!['-'] + decimal(m as nat));
        r
    } else {
        u64_decimal(i as u64)
    }
}

/// An ASCII digit.
pub open spec fn is_digit(c: char) -> bool {
    '0' <= c <= '9'
}

/// The value of an ASCII digit.
pub open spec fn digit_value(c: char) -> nat {
    ((c as u32) - 48) as nat
}

/// The value of a run of ASCII digits, most significant first.
pub open spec fn digits_value(s: Seq<char>) -> nat
    decreases s.len(),
{
    if s.len() == 0 {
        0
    } else {
        digits_value(s.drop_last()) * 10 + digit_value(s.last())
    }
}

/// Every character of `s` is an ASCII digit.
pub open spec fn all_digits(s: Seq<char>) -> bool {
    forall|k: int| 0 <= k < s.len() ==> is_digit(#[trigger] s[k])
}

/// What `u32::from_str` returns: an optional `+`, then one or more ASCII
/// digits whose value fits in a `u32`.
pub open spec fn parse_u32(s: Seq<char>) -> Option<u32> {
    let b = if s.len() > 0 && s[0] == '+' {
        s.drop_first()
    } else {
        s
    };
    if b.len() > 0 && all_digits(b) && digits_value(b) <= u32::MAX {
        Some(digits_value(b) as u32)
    } else {
        None
    }
}

proof fn lemma_digits_value_prefix(s: Seq<char>, k: int)
    requires
        0 <= k <= s.len(),
    ensures
        digits_value(s.subrange(0, k)) <= digits_value(s),
    decreases s.len() - k,
{
    if k < s.len() {
        lemma_digits_value_prefix(s.drop_last(), k);
        assert(s.drop_last().subrange(0, k) == s.subrange(0, k));
    } else {
        assert(s.subrange(0, k) == s);
    }
}

/// Parses `s` as `u32::from_str` does.
pub fn parse_u32_chars(s: &[char]) -> (r: Option<u32>)
    ensures
        r == parse_u32(s@),
{
    let n = s.len();
    let start: usize = if n > 0 && s[0] == '+' {
        1
    } else {
        0
    };
    let ghost b = if s@.len() > 0 && s@[0] == '+' {
        s@.drop_first()
    } else {
        s@
    };
    assert(b == s@.subrange(start as int, n as int));
    if start == n {
        return None;
    }
    let mut acc: u64 = 0;
    let mut k: usize = start;
    while k < n
        invariant
            start <= k <= n,
            n == s@.len(),
            b == s@.subrange(start as int, n as int),
            b == (if s@.len() > 0 && s@[0] == '+' {
                s@.drop_first()
            } else {
                s@
            }),
            all_digits(s@.subrange(start as int, k as int)),
            acc as nat == digits_value(s@.subrange(start as int, k as int)),
            acc <= u32::MAX,
        decreases n - k,
    {
        let c = s[k];
        let ghost pre = s@.subrange(start as int, k as int);
        let ghost pre2 = s@.subrange(start as int, k + 1);
        assert(pre2.drop_last() == pre);
        assert(pre2.last() == c);
        if !('0' <= c && c <= '9') {
            assert(b[k - start] == c);
            assert(!is_digit(b[k - start]));
            assert(!all_digits(b));
            assert(parse_u32(s@) is None);
            return None;
        }
        let d = (c as u32 - 48) as u64;
        acc = acc * 10 + d;
        if acc > 4294967295u64 {
            proof {
                if all_digits(b) {
                    lemma_digits_value_prefix(b, (k + 1 - start) as int);
                    assert(b.subrange(0, (k + 1 - start) as int) == pre2);
                    assert(digits_value(pre2) == acc);
                    assert(digits_value(b) > u32::MAX);
                }
                assert(parse_u32(s@) is None);
            }
            return None;
        }
        k = k + 1;
    }
    assert(s@.subrange(start as int, n as int) == b);
    Some(acc as u32)
}


// ---------------------------------------------------------------------------
// Building strings
// ---------------------------------------------------------------------------

/// The text `a` followed by the characters `b`.
pub fn str_then_chars(a: &str, b: &[char]) -> (r: Vec<char>)
    ensures
        r@ == a@ + b@,
{
    let mut r = chars_of(a);
    extend_chars(&mut r, b);
    r
}

/// The characters of a `String`.
pub fn chars_of_string(s: &String) -> (v: Vec<char>)
    ensures
        v@ == s@,
{
    chars_of(s.as_str())
}

/// The pieces joined with `sep` between consecutive ones (`slice::join`).
pub open spec fn joined(pieces: Seq<Seq<char>>, sep: Seq<char>) -> Seq<char>
    decreases pieces.len(),
{
    if pieces.len() == 0 {
        seq![]
    } else if pieces.len() == 1 {
        pieces[0]
    } else {
        joined(pieces.drop_last(), sep) + sep + pieces.last()
    }
}

/// The strings of `pieces` joined with `sep`.
pub fn join_strings(pieces: &Vec<String>, sep: &str) -> (r: String)
    ensures
        r@ == joined(pieces@.map_values(|s: String| s@), sep@),
{
    let ghost vs = pieces@.map_values(|s: String| s@);
    let sepv = chars_of(sep);
    let mut v: Vec<char> = Vec::new();
    let mut i: usize = 0;
    while i < pieces.len()
        invariant
            i <= pieces@.len(),
            vs == pieces@.map_values(|s: String| s@),
            sepv@ == sep@,
            v@ == joined(vs.subrange(0, i as int), sep@),
        decreases pieces@.len() - i,
    {
        if i > 0 {
            extend_chars(&mut v, sepv.as_slice());
        }
        extend_chars(&mut v, chars_of_string(&pieces[i]).as_slice());
        let ghost pre2 = vs.subrange(0, i + 1);
        assert(pre2.drop_last() == vs.subrange(0, i as int));
        assert(pre2.last() == pieces@[i as int]@);
        if i == 0 {
            assert(v@ == pre2[0]);
        }
        i = i + 1;
    }
    assert(vs.subrange(0, pieces@.len() as int) == vs);
    string_of(v.as_slice())
}

/// `p` occurs in `s` as a contiguous run (`str::contains`).
pub open spec fn has_infix(s: Seq<char>, p: Seq<char>) -> bool {
    exists|i: int| 0 <= i && i + p.len() <= s.len() && #[trigger] s.subrange(i, i + p.len()) == p
}

/// Whether `p` occurs in `s` at index `i`.
fn occurs_at(s: &[char], p: &[char], i: usize) -> (r: bool)
    requires
        i + p@.len() <= s@.len(),
    ensures
        r == (s@.subrange(i as int, i + p@.len()) == p@),
{
    let n = s.len();
    let mut k: usize = 0;
    while k < p.len()
        invariant
            k <= p@.len(),
            n == s@.len(),
            i + p@.len() <= s@.len(),
            forall|j: int| 0 <= j < k ==> s@[i + j] == p@[j],
        decreases p@.len() - k,
    {
        if s[i + k] != p[k] {
            assert(s@.subrange(i as int, i + p@.len())[k as int] != p@[k as int]);
            return false;
        }
        k = k + 1;
    }
    assert(s@.subrange(i as int, i + p@.len()) == p@);
    true
}

/// Whether `p` occurs in `s`.
pub fn contains_chars(s: &[char], p: &[char]) -> (r: bool)
    ensures
        r == has_infix(s@, p@),
{
    if p.len() > s.len() {
        return false;
    }
    let last = s.len() - p.len();
    let mut i: usize = 0;
    while i <= last
        invariant
            last + p@.len() == s@.len(),
            i <= last + 1,
            forall|j: int| 0 <= j < i ==> #[trigger] s@.subrange(j, j + p@.len()) != p@,
        decreases last + 1 - i,
    {
        if occurs_at(s, p, i) {
            return true;
        }
        if i == last {
            return false;
        }
        i = i + 1;
    }
    false
}

} // verus!
