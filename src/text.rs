//! Character-level text helpers: whitespace, lines, trimming and word splitting.
//!
//! Text is handled as a `Vec<char>`; pieces of it are addressed by half-open
//! spans `[lo, hi)` of character positions.

use vstd::prelude::*;

verus! {

/// Unicode `White_Space`, the set that `char::is_whitespace` tests.
pub open spec fn is_ws(c: char) -> bool {
    let u = c as u32;
    (0x9 <= u && u <= 0xd) || u == 0x20 || u == 0x85 || u == 0xa0 || u == 0x1680 || (0x2000 <= u
        && u <= 0x200a) || u == 0x2028 || u == 0x2029 || u == 0x202f || u == 0x205f || u == 0x3000
}

/// Position of the first `c` in `s`, or `s.len()` when there is none.
pub open spec fn index_of(s: Seq<char>, c: char) -> nat
    decreases s.len(),
{
    if s.len() == 0 {
        0
    } else if s[0] == c {
        0
    } else {
        1 + index_of(s.drop_first(), c)
    }
}

/// Length of the leading run of non-whitespace characters of `s`.
pub open spec fn word_len(s: Seq<char>) -> nat
    decreases s.len(),
{
    if s.len() == 0 || is_ws(s[0]) {
        0
    } else {
        1 + word_len(s.drop_first())
    }
}

/// `s` without its leading whitespace.
pub open spec fn trim_front(s: Seq<char>) -> Seq<char>
    decreases s.len(),
{
    if s.len() > 0 && is_ws(s[0]) {
        trim_front(s.drop_first())
    } else {
        s
    }
}

/// `s` without its trailing whitespace.
pub open spec fn trim_back(s: Seq<char>) -> Seq<char>
    decreases s.len(),
{
    if s.len() > 0 && is_ws(s.last()) {
        trim_back(s.drop_last())
    } else {
        s
    }
}

/// `s` without leading and trailing whitespace (`str::trim`).
pub open spec fn trim(s: Seq<char>) -> Seq<char> {
    trim_back(trim_front(s))
}

/// The maximal runs of non-whitespace characters of `s`, in order
/// (`str::split_whitespace`).
pub open spec fn words(s: Seq<char>) -> Seq<Seq<char>>
    decreases s.len(),
{
    if s.len() == 0 {
        seq![]
    } else if is_ws(s[0]) {
        words(s.drop_first())
    } else {
        proof {
            lemma_word_len(s);
        }
        let k = word_len(s) as int;
        seq![s.subrange(0, k)] + words(s.subrange(k, s.len() as int))
    }
}

/// The pieces of `s` between line feeds. A text ending in a line feed has an
/// empty last piece; every consumer here ignores empty lines.
pub open spec fn lines(s: Seq<char>) -> Seq<Seq<char>>
    decreases s.len(),
{
    let k = index_of(s, '\n') as int;
    if k < s.len() {
        proof {
            lemma_index_of(s, '\n');
        }
        seq![s.subrange(0, k)] + lines(s.subrange(k + 1, s.len() as int))
    } else {
        seq![s]
    }
}

/// The pieces of `cs` that `spans` address.
pub open spec fn span_texts(cs: Seq<char>, spans: Seq<(usize, usize)>) -> Seq<Seq<char>> {
    Seq::new(spans.len(), |k: int| cs.subrange(spans[k].0 as int, spans[k].1 as int))
}

pub proof fn lemma_index_of(s: Seq<char>, c: char)
    ensures
        index_of(s, c) <= s.len(),
        index_of(s, c) < s.len() ==> s[index_of(s, c) as int] == c,
    decreases s.len(),
{
    if s.len() > 0 && s[0] != c {
        lemma_index_of(s.drop_first(), c);
    }
}

pub proof fn lemma_word_len(s: Seq<char>)
    ensures
        word_len(s) <= s.len(),
        s.len() > 0 && !is_ws(s[0]) ==> word_len(s) >= 1,
    decreases s.len(),
{
    if s.len() > 0 && !is_ws(s[0]) {
        lemma_word_len(s.drop_first());
    }
}

/// How `lines` unfolds at a line feed found at `e` in `cs[a..n]`.
pub proof fn lemma_lines_step(cs: Seq<char>, a: int, e: int, n: int)
    requires
        0 <= a <= e <= n <= cs.len(),
        e == a + index_of(cs.subrange(a, n), '\n'),
    ensures
        lines(cs.subrange(a, n))[0] == cs.subrange(a, e),
        e < n ==> lines(cs.subrange(a, n)).drop_first() == lines(cs.subrange(e + 1, n)),
        e == n ==> lines(cs.subrange(a, n)).len() == 1,
{
    let s = cs.subrange(a, n);
    lemma_index_of(s, '\n');
    assert(s.subrange(0, e - a) =~= cs.subrange(a, e));
    if e < n {
        assert(s.subrange(e - a + 1, s.len() as int) =~= cs.subrange(e + 1, n));
        assert(lines(s).drop_first() =~= lines(cs.subrange(e + 1, n)));
    } else {
        assert(s =~= cs.subrange(a, e));
    }
}

/// `char::is_whitespace`, written out.
pub fn is_whitespace(c: char) -> (r: bool)
    ensures
        r == is_ws(c),
{
    let u = c as u32;
    (0x9 <= u && u <= 0xd) || u == 0x20 || u == 0x85 || u == 0xa0 || u == 0x1680 || (0x2000 <= u
        && u <= 0x200a) || u == 0x2028 || u == 0x2029 || u == 0x202f || u == 0x205f || u == 0x3000
}

/// The characters of `s`, in order.
pub fn chars_of(s: &str) -> (r: Vec<char>)
    ensures
        r@ == s@,
{
    let mut out: Vec<char> = Vec::new();
    for c in it: s.chars()
        invariant
            out@ == it.seq().subrange(0, it.index() as int),
    {
        out.push(c);
    }
    out
}

/// The string made of `text[lo..hi]`, where `cs` holds the characters of `text`.
pub fn substring(text: &str, cs: &Vec<char>, lo: usize, hi: usize) -> (r: String)
    requires
        cs@ == text@,
        lo <= hi <= cs.len(),
    ensures
        r@ == cs@.subrange(lo as int, hi as int),
{
    text.substring_char(lo, hi).to_owned()
}

/// Position of the first `c` in `cs[lo..hi]`, or `hi` when there is none.
pub fn find_char(cs: &Vec<char>, c: char, lo: usize, hi: usize) -> (r: usize)
    requires
        lo <= hi <= cs.len(),
    ensures
        r == lo + index_of(cs@.subrange(lo as int, hi as int), c),
        lo <= r <= hi,
{
    proof {
        lemma_index_of(cs@.subrange(lo as int, hi as int), c);
    }
    let mut j = lo;
    while j < hi && cs[j] != c
        invariant
            lo <= j <= hi <= cs.len(),
            index_of(cs@.subrange(lo as int, hi as int), c) == (j - lo) + index_of(
                cs@.subrange(j as int, hi as int),
                c,
            ),
        decreases hi - j,
    {
        assert(cs@.subrange(j as int, hi as int).drop_first() =~= cs@.subrange(
            j + 1,
            hi as int,
        ));
        j += 1;
    }
    j
}

/// The span of `trim(cs[lo..hi])` within `cs`.
pub fn trim_span(cs: &Vec<char>, lo: usize, hi: usize) -> (r: (usize, usize))
    requires
        lo <= hi <= cs.len(),
    ensures
        lo <= r.0 <= r.1 <= hi,
        cs@.subrange(r.0 as int, r.1 as int) == trim(cs@.subrange(lo as int, hi as int)),
{
    let mut a = lo;
    while a < hi && is_whitespace(cs[a])
        invariant
            lo <= a <= hi <= cs.len(),
            trim_front(cs@.subrange(lo as int, hi as int)) == trim_front(
                cs@.subrange(a as int, hi as int),
            ),
        decreases hi - a,
    {
        assert(cs@.subrange(a as int, hi as int).drop_first() =~= cs@.subrange(
            a + 1,
            hi as int,
        ));
        a += 1;
    }
    let mut b = hi;
    while b > a && is_whitespace(cs[b - 1])
        invariant
            lo <= a <= b <= hi <= cs.len(),
            trim_front(cs@.subrange(lo as int, hi as int)) == cs@.subrange(a as int, hi as int),
            trim_back(cs@.subrange(a as int, hi as int)) == trim_back(
                cs@.subrange(a as int, b as int),
            ),
        decreases b - a,
    {
        assert(cs@.subrange(a as int, b as int).drop_last() =~= cs@.subrange(
            a as int,
            b - 1,
        ));
        b -= 1;
    }
    (a, b)
}

/// The words of `cs[lo..hi]`, as spans into `cs`.
pub fn word_spans(cs: &Vec<char>, lo: usize, hi: usize) -> (r: Vec<(usize, usize)>)
    requires
        lo <= hi <= cs.len(),
    ensures
        span_texts(cs@, r@) == words(cs@.subrange(lo as int, hi as int)),
        forall|k: int| 0 <= k < r.len() ==> lo <= #[trigger] r@[k].0 <= r@[k].1 <= hi,
{
    let mut out: Vec<(usize, usize)> = Vec::new();
    let mut i = lo;
    while i < hi
        invariant
            lo <= i <= hi <= cs.len(),
            forall|k: int| 0 <= k < out.len() ==> lo <= #[trigger] out@[k].0 <= out@[k].1 <= i,
            span_texts(cs@, out@) + words(cs@.subrange(i as int, hi as int)) == words(
                cs@.subrange(lo as int, hi as int),
            ),
        decreases hi - i,
    {
        let ghost rest = cs@.subrange(i as int, hi as int);
        if is_whitespace(cs[i]) {
            assert(rest.drop_first() =~= cs@.subrange(i + 1, hi as int));
            i += 1;
        } else {
            let mut j = i;
            while j < hi && !is_whitespace(cs[j])
                invariant
                    i <= j <= hi <= cs.len(),
                    word_len(rest) == (j - i) + word_len(cs@.subrange(j as int, hi as int)),
                decreases hi - j,
            {
                assert(cs@.subrange(j as int, hi as int).drop_first() =~= cs@.subrange(
                    j + 1,
                    hi as int,
                ));
                j += 1;
            }
            let ghost k = (j - i) as int;
            assert(rest.subrange(0, k) =~= cs@.subrange(i as int, j as int));
            assert(rest.subrange(k, rest.len() as int) =~= cs@.subrange(j as int, hi as int));
            let ghost before = span_texts(cs@, out@);
            out.push((i, j));
            assert(span_texts(cs@, out@) =~= before.push(cs@.subrange(i as int, j as int)));
            assert(before + words(rest) =~= before.push(cs@.subrange(i as int, j as int))
                + words(cs@.subrange(j as int, hi as int)));
            i = j;
        }
    }
    assert(cs@.subrange(i as int, hi as int) =~= Seq::<char>::empty());
    assert(span_texts(cs@, out@) + seq![] =~= span_texts(cs@, out@));
    out
}

/// Whether `cs[lo..hi]` is exactly `t`.
pub fn span_equals(cs: &Vec<char>, lo: usize, hi: usize, t: &Vec<char>) -> (r: bool)
    requires
        lo <= hi <= cs.len(),
    ensures
        r == (cs@.subrange(lo as int, hi as int) == t@),
{
    if hi - lo != t.len() {
        return false;
    }
    let mut k: usize = 0;
    while k < t.len()
        invariant
            hi - lo == t.len(),
            lo <= hi <= cs.len(),
            k <= t.len(),
            forall|m: int| 0 <= m < k ==> cs@[lo + m] == t@[m],
        decreases t.len() - k,
    {
        if cs[lo + k] != t[k] {
            assert(cs@.subrange(lo as int, hi as int)[k as int] != t@[k as int]);
            return false;
        }
        k += 1;
    }
    assert(cs@.subrange(lo as int, hi as int) =~= t@);
    true
}

} // verus!
