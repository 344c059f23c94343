//! Character-sequence helpers with the semantics of the `str` operations
//! the tools rely on (`lines`, `split`, `trim`, `split_whitespace`, ...).
use vstd::prelude::*;

verus! {

/// Appends one character at the end of a `String` (`String::push`).
#[verifier::external_body]
fn push_char(s: &mut String, c: char)
    ensures
        final(s)@ == old(s)@.push(c),
{
    s.push(c);
}

/// The characters of `s`, in order.
pub fn chars_of(s: &str) -> (v: Vec<char>)
    ensures
        v@ == s@,
{
    let mut v: Vec<char> = Vec::new();
    for c in it: s.chars()
        invariant
            v@ == it.seq().take(it.index() as int),
    {
        v.push(c);
    }
    v
}

/// A `String` holding exactly the characters of `v`.
pub fn string_of(v: &Vec<char>) -> (s: String)
    ensures
        s@ == v@,
{
    let mut s = String::new();
    let mut i: usize = 0;
    while i < v.len()
        invariant
            i <= v.len(),
            s@ == v@.take(i as int),
        decreases v.len() - i,
    {
        push_char(&mut s, v[i]);
        i = i + 1;
        assert(s@ =~= v@.take(i as int));
    }
    assert(v@.take(v.len() as int) =~= v@);
    s
}


/// Index of the first occurrence of `c` in `s`, or `s.len()` when absent.
pub open spec fn find(s: Seq<char>, c: char) -> nat
    decreases s.len(),
{
    if s.len() == 0 {
        0
    } else if s[0] == c {
        0
    } else {
        1 + find(s.drop_first(), c)
    }
}

pub proof fn lemma_find_at(s: Seq<char>, c: char, i: int)
    requires
        0 <= i <= s.len(),
        i < s.len() ==> s[i] == c,
        forall|j: int| 0 <= j < i ==> s[j] != c,
    ensures
        find(s, c) == i,
    decreases s.len(),
{
    if i > 0 {
        assert(s[0] != c);
        assert forall|j: int| 0 <= j < i - 1 implies s.drop_first()[j] != c by {
            assert(s.drop_first()[j] == s[j + 1]);
        }
        lemma_find_at(s.drop_first(), c, i - 1);
    }
}

/// Position of the first `c` at or after `start` (or `v.len()`).
pub fn find_from(v: &Vec<char>, start: usize, c: char) -> (k: usize)
    requires
        start <= v.len(),
    ensures
        start <= k <= v.len(),
        k == start + find(v@.skip(start as int), c),
{
    let mut k = start;
    while k < v.len() && v[k] != c
        invariant
            start <= k <= v.len(),
            forall|j: int| start <= j < k ==> v@[j] != c,
        decreases v.len() - k,
    {
        k = k + 1;
    }
    proof {
        let t = v@.skip(start as int);
        assert forall|j: int| 0 <= j < k - start implies t[j] != c by {
            assert(t[j] == v@[start + j]);
        }
        if k < v.len() {
            assert(t[k - start] == v@[k as int]);
        }
        lemma_find_at(t, c, k - start);
    }
    k
}

/// `p` occurs in `s` starting at position `i`.
pub open spec fn occurs_at(s: Seq<char>, p: Seq<char>, i: int) -> bool {
    0 <= i && i + p.len() <= s.len() && s.subrange(i, i + p.len()) == p
}

/// `p` is a substring of `s` (`str::contains` with a string pattern).
pub open spec fn contains(s: Seq<char>, p: Seq<char>) -> bool {
    exists|i: int| occurs_at(s, p, i)
}

fn matches_at(v: &Vec<char>, p: &Vec<char>, i: usize) -> (r: bool)
    requires
        i + p.len() <= v.len(),
    ensures
        r == occurs_at(v@, p@, i as int),
{
    let mut j: usize = 0;
    while j < p.len()
        invariant
            j <= p.len(),
            i + p.len() <= v.len(),
            forall|k: int| 0 <= k < j ==> v@[i + k] == p@[k],
        decreases p.len() - j,
    {
        if v[i + j] != p[j] {
            assert(v@.subrange(i as int, i + p.len())[j as int] != p@[j as int]);
            return false;
        }
        j = j + 1;
    }
    assert(v@.subrange(i as int, i + p.len()) =~= p@);
    true
}

/// Substring search.
pub fn contains_chars(v: &Vec<char>, p: &Vec<char>) -> (r: bool)
    ensures
        r == contains(v@, p@),
{
    if p.len() > v.len() {
        return false;
    }
    let last = v.len() - p.len();
    let mut i: usize = 0;
    loop
        invariant
            p.len() <= v.len(),
            last == v.len() - p.len(),
            i <= last,
            forall|k: int| 0 <= k < i ==> !occurs_at(v@, p@, k),
        ensures
            forall|k: int| 0 <= k <= last ==> !occurs_at(v@, p@, k),
        decreases last - i,
    {
        if matches_at(v, p, i) {
            return true;
        }
        if i == last {
            break;
        }
        i = i + 1;
    }
    assert forall|k: int| !occurs_at(v@, p@, k) by {
        if 0 <= k <= last {
        }
    }
    false
}

/// Drops one trailing carriage return.
pub open spec fn strip_cr(p: Seq<char>) -> Seq<char> {
    if p.len() > 0 && p.last() == '\r' {
        p.drop_last()
    } else {
        p
    }
}

/// The lines of `s` as `str::lines` yields them: split after each `'\n'`,
/// a `'\r'` right before that `'\n'` removed, and no empty line produced
/// by a final line ending.
pub open spec fn lines(s: Seq<char>) -> Seq<Seq<char>>
    decreases s.len(),
{
    if s.len() == 0 {
        seq![]
    } else {
        let k = find(s, '\n');
        if k < s.len() {
            seq![strip_cr(s.take(k as int))] + lines(s.skip(k + 1int))
        } else {
            seq![s]
        }
    }
}

/// The pieces of `s` between occurrences of `sep` (`str::split` with a
/// character pattern): always at least one piece.
pub open spec fn split(s: Seq<char>, sep: char) -> Seq<Seq<char>>
    decreases s.len(),
{
    let k = find(s, sep);
    if k < s.len() {
        seq![s.take(k as int)] + split(s.skip(k + 1int), sep)
    } else {
        seq![s]
    }
}


/// The characters `v[a..b]`.
pub fn slice_chars(v: &Vec<char>, a: usize, b: usize) -> (r: Vec<char>)
    requires
        a <= b <= v.len(),
    ensures
        r@ == v@.subrange(a as int, b as int),
{
    let mut r: Vec<char> = Vec::new();
    let mut i = a;
    while i < b
        invariant
            a <= i <= b <= v.len(),
            r@ == v@.subrange(a as int, i as int),
        decreases b - i,
    {
        r.push(v[i]);
        i = i + 1;
        assert(r@ =~= v@.subrange(a as int, i as int));
    }
    r
}

/// The line of `v` that starts at `start`, and the position where the
/// following line starts.
pub fn line_at(v: &Vec<char>, start: usize) -> (r: (Vec<char>, usize))
    requires
        start < v.len(),
    ensures
        start < r.1 <= v.len(),
        lines(v@.skip(start as int)) == seq![r.0@] + lines(v@.skip(r.1 as int)),
{
    let k = find_from(v, start, '\n');
    let ghost t = v@.skip(start as int);
    if k < v.len() {
        let mut end = k;
        if end > start && v[end - 1] == '\r' {
            end = end - 1;
        }
        let line = slice_chars(v, start, end);
        proof {
            assert(t.take(k - start) =~= v@.subrange(start as int, k as int));
            assert(t.skip(k - start + 1) =~= v@.skip(k + 1));
            assert(strip_cr(t.take(k - start)) =~= line@);
        }
        (line, k + 1)
    } else {
        let line = slice_chars(v, start, v.len());
        proof {
            assert(t =~= line@);
            assert(v@.skip(v.len() as int) =~= Seq::<char>::empty());
            assert(lines(Seq::<char>::empty()) =~= Seq::<Seq<char>>::empty());
            assert(seq![line@] + lines(v@.skip(v.len() as int)) =~= seq![line@]);
        }
        (line, v.len())
    }
}

/// The `n`-th piece of `v` split at `sep`, if there are that many
/// (`s.split(sep).nth(n)`).
pub fn split_nth(v: &Vec<char>, sep: char, n: usize) -> (r: Option<Vec<char>>)
    ensures
        n < split(v@, sep).len() ==> r is Some && r->0@ == split(v@, sep)[n as int],
        n >= split(v@, sep).len() ==> r is None,
{
    let mut pos: usize = 0;
    let mut count: usize = 0;
    assert(v@.skip(0) =~= v@);
    loop
        invariant
            pos <= v.len(),
            count <= n,
            split(v@, sep).len() == count + split(v@.skip(pos as int), sep).len(),
            forall|j: int|
                0 <= j < split(v@.skip(pos as int), sep).len() ==> split(v@, sep)[count + j]
                    == split(v@.skip(pos as int), sep)[j],
        decreases n - count,
    {
        let k = find_from(v, pos, sep);
        let ghost t = v@.skip(pos as int);
        proof {
            assert(t.take(k - pos) =~= v@.subrange(pos as int, k as int));
            if k < v.len() {
                assert(t.skip(k - pos + 1) =~= v@.skip(k + 1));
            } else {
                assert(t =~= v@.subrange(pos as int, k as int));
            }
        }
        if count == n {
            let piece = slice_chars(v, pos, k);
            proof {
                assert(split(v@, sep)[count + 0] == split(t, sep)[0]);
            }
            return Some(piece);
        }
        if k == v.len() {
            return None;
        }
        proof {
            let rest = split(v@.skip(k + 1), sep);
            assert forall|j: int| 0 <= j < rest.len() implies split(v@, sep)[count + 1 + j] == rest[j] by {
                assert(split(t, sep)[1 + j] == rest[j]);
            }
        }
        pos = k + 1;
        count = count + 1;
    }
}

/// `s` with every occurrence of `c` removed (`s.replace(c, "")`).
pub open spec fn remove_char(s: Seq<char>, c: char) -> Seq<char>
    decreases s.len(),
{
    if s.len() == 0 {
        s
    } else if s.last() == c {
        remove_char(s.drop_last(), c)
    } else {
        remove_char(s.drop_last(), c).push(s.last())
    }
}

pub fn remove_all(v: &Vec<char>, c: char) -> (r: Vec<char>)
    ensures
        r@ == remove_char(v@, c),
{
    let mut r: Vec<char> = Vec::new();
    let mut i: usize = 0;
    while i < v.len()
        invariant
            i <= v.len(),
            r@ == remove_char(v@.take(i as int), c),
        decreases v.len() - i,
    {
        assert(v@.take(i + 1).drop_last() =~= v@.take(i as int));
        if v[i] != c {
            r.push(v[i]);
        }
        i = i + 1;
    }
    assert(v@.take(v.len() as int) =~= v@);
    r
}

/// Unicode `White_Space`, the set `char::is_whitespace` tests for.
pub open spec fn is_whitespace(c: char) -> bool {
    ||| '\u{9}' <= c <= '\u{d}'
    ||| c == ' '
    ||| c == '\u{85}'
    ||| c == '\u{a0}'
    ||| c == '\u{1680}'
    ||| '\u{2000}' <= c <= '\u{200a}'
    ||| c == '\u{2028}'
    ||| c == '\u{2029}'
    ||| c == '\u{202f}'
    ||| c == '\u{205f}'
    ||| c == '\u{3000}'
}

pub fn is_space(c: char) -> (r: bool)
    ensures
        r == is_whitespace(c),
{
    ('\u{9}' <= c && c <= '\u{d}') || c == ' ' || c == '\u{85}' || c == '\u{a0}' || c == '\u{1680}'
        || ('\u{2000}' <= c && c <= '\u{200a}') || c == '\u{2028}' || c == '\u{2029}' || c
        == '\u{202f}' || c == '\u{205f}' || c == '\u{3000}'
}

/// `s` without its leading whitespace.
pub open spec fn trim_start(s: Seq<char>) -> Seq<char>
    decreases s.len(),
{
    if s.len() > 0 && is_whitespace(s[0]) {
        trim_start(s.drop_first())
    } else {
        s
    }
}

/// `s` without its trailing whitespace.
pub open spec fn trim_end(s: Seq<char>) -> Seq<char>
    decreases s.len(),
{
    if s.len() > 0 && is_whitespace(s.last()) {
        trim_end(s.drop_last())
    } else {
        s
    }
}

/// `s` without leading and trailing whitespace (`str::trim`).
pub open spec fn trim(s: Seq<char>) -> Seq<char> {
    trim_end(trim_start(s))
}

pub proof fn lemma_trim_start_at(s: Seq<char>, a: int)
    requires
        0 <= a <= s.len(),
        forall|j: int| 0 <= j < a ==> is_whitespace(s[j]),
        a < s.len() ==> !is_whitespace(s[a]),
    ensures
        trim_start(s) == s.skip(a),
    decreases a,
{
    if a > 0 {
        assert forall|j: int| 0 <= j < a - 1 implies is_whitespace(s.drop_first()[j]) by {
            assert(s.drop_first()[j] == s[j + 1]);
        }
        if a < s.len() {
            assert(s.drop_first()[a - 1] == s[a]);
        }
        lemma_trim_start_at(s.drop_first(), a - 1);
        assert(s.drop_first().skip(a - 1) =~= s.skip(a));
    } else {
        assert(s.skip(0) =~= s);
    }
}

pub proof fn lemma_trim_end_at(s: Seq<char>, b: int)
    requires
        0 <= b <= s.len(),
        forall|j: int| b <= j < s.len() ==> is_whitespace(s[j]),
        b > 0 ==> !is_whitespace(s[b - 1]),
    ensures
        trim_end(s) == s.take(b),
    decreases s.len() - b,
{
    if b < s.len() {
        assert forall|j: int| b <= j < s.len() - 1 implies is_whitespace(s.drop_last()[j]) by {
            assert(s.drop_last()[j] == s[j]);
        }
        if b > 0 {
            assert(s.drop_last()[b - 1] == s[b - 1]);
        }
        lemma_trim_end_at(s.drop_last(), b);
        assert(s.drop_last().take(b) =~= s.take(b));
    } else {
        assert(s.take(b) =~= s);
    }
}

/// Index of the first non-whitespace character at or after `start`.
pub fn skip_space(v: &Vec<char>, start: usize) -> (a: usize)
    requires
        start <= v.len(),
    ensures
        start <= a <= v.len(),
        forall|j: int| start <= j < a ==> is_whitespace(v@[j]),
        a < v.len() ==> !is_whitespace(v@[a as int]),
{
    let mut a = start;
    while a < v.len() && is_space(v[a])
        invariant
            start <= a <= v.len(),
            forall|j: int| start <= j < a ==> is_whitespace(v@[j]),
        decreases v.len() - a,
    {
        a = a + 1;
    }
    a
}

/// Index of the first whitespace character at or after `start`.
pub fn skip_word(v: &Vec<char>, start: usize) -> (a: usize)
    requires
        start <= v.len(),
    ensures
        start <= a <= v.len(),
        forall|j: int| start <= j < a ==> !is_whitespace(v@[j]),
        a < v.len() ==> is_whitespace(v@[a as int]),
{
    let mut a = start;
    while a < v.len() && !is_space(v[a])
        invariant
            start <= a <= v.len(),
            forall|j: int| start <= j < a ==> !is_whitespace(v@[j]),
        decreases v.len() - a,
    {
        a = a + 1;
    }
    a
}

/// `s.trim()` as an owned string.
pub fn trim_text(s: &str) -> (r: String)
    ensures
        r@ == trim(s@),
{
    string_of(&trim_chars(&chars_of(s)))
}

/// `str::trim`.
pub fn trim_chars(v: &Vec<char>) -> (r: Vec<char>)
    ensures
        r@ == trim(v@),
{
    let a = skip_space(v, 0);
    let mut b = v.len();
    while b > a && is_space(v[b - 1])
        invariant
            a <= b <= v.len(),
            forall|j: int| b <= j < v.len() ==> is_whitespace(v@[j]),
        decreases b,
    {
        b = b - 1;
    }
    let r = slice_chars(v, a, b);
    proof {
        lemma_trim_start_at(v@, a as int);
        let t = v@.skip(a as int);
        assert forall|j: int| b - a <= j < t.len() implies is_whitespace(t[j]) by {
            assert(t[j] == v@[a + j]);
        }
        if b > a {
            assert(t[b - a - 1] == v@[b - 1]);
        }
        lemma_trim_end_at(t, b - a);
        assert(t.take(b - a) =~= r@);
    }
    r
}


/// Index of the first whitespace character of `s`, or `s.len()`.
pub open spec fn find_space(s: Seq<char>) -> nat
    decreases s.len(),
{
    if s.len() == 0 {
        0
    } else if is_whitespace(s[0]) {
        0
    } else {
        1 + find_space(s.drop_first())
    }
}

pub proof fn lemma_find_space_at(s: Seq<char>, i: int)
    requires
        0 <= i <= s.len(),
        i < s.len() ==> is_whitespace(s[i]),
        forall|j: int| 0 <= j < i ==> !is_whitespace(s[j]),
    ensures
        find_space(s) == i,
    decreases s.len(),
{
    if i > 0 {
        assert forall|j: int| 0 <= j < i - 1 implies !is_whitespace(s.drop_first()[j]) by {
            assert(s.drop_first()[j] == s[j + 1]);
        }
        if i < s.len() {
            assert(s.drop_first()[i - 1] == s[i]);
        }
        lemma_find_space_at(s.drop_first(), i - 1);
    }
}

pub proof fn lemma_find_space_bound(s: Seq<char>)
    ensures
        find_space(s) <= s.len(),
    decreases s.len(),
{
    if s.len() > 0 {
        lemma_find_space_bound(s.drop_first());
    }
}

/// The maximal runs of non-whitespace characters of `s`, in order
/// (`str::split_whitespace`).
pub open spec fn words(s: Seq<char>) -> Seq<Seq<char>>
    decreases s.len(),
{
    if s.len() == 0 {
        seq![]
    } else if is_whitespace(s[0]) {
        words(s.drop_first())
    } else {
        let k = find_space(s);
        proof {
            lemma_find_space_bound(s);
        }
        seq![s.take(k as int)] + words(s.skip(k as int))
    }
}

pub proof fn lemma_words_skip_space(s: Seq<char>, a: int)
    requires
        0 <= a <= s.len(),
        forall|j: int| 0 <= j < a ==> is_whitespace(s[j]),
    ensures
        words(s) == words(s.skip(a)),
    decreases a,
{
    if a > 0 {
        assert forall|j: int| 0 <= j < a - 1 implies is_whitespace(s.drop_first()[j]) by {
            assert(s.drop_first()[j] == s[j + 1]);
        }
        lemma_words_skip_space(s.drop_first(), a - 1);
        assert(s.drop_first().skip(a - 1) =~= s.skip(a));
    } else {
        assert(s.skip(0) =~= s);
    }
}

/// The word of `v` that starts at or after `start`, and the position right
/// after it; `None` when only whitespace is left.
pub fn word_at(v: &Vec<char>, start: usize) -> (r: Option<(Vec<char>, usize)>)
    requires
        start <= v.len(),
    ensures
        r is None ==> words(v@.skip(start as int)).len() == 0,
        r matches Some((w, next)) ==> start < next <= v.len() && words(v@.skip(start as int))
            == seq![w@] + words(v@.skip(next as int)),
{
    let a = skip_space(v, start);
    let ghost t = v@.skip(start as int);
    proof {
        assert forall|j: int| 0 <= j < a - start implies is_whitespace(t[j]) by {
            assert(t[j] == v@[start + j]);
        }
        lemma_words_skip_space(t, a - start);
        assert(t.skip(a - start) =~= v@.skip(a as int));
    }
    if a == v.len() {
        assert(v@.skip(a as int).len() == 0);
        return None;
    }
    let b = skip_word(v, a);
    let w = slice_chars(v, a, b);
    proof {
        let u = v@.skip(a as int);
        assert forall|j: int| 0 <= j < b - a implies !is_whitespace(u[j]) by {
            assert(u[j] == v@[a + j]);
        }
        if b < v.len() {
            assert(u[b - a] == v@[b as int]);
        }
        lemma_find_space_at(u, b - a);
        assert(u[0] == v@[a as int]);
        assert(u.take(b - a) =~= w@);
        assert(u.skip(b - a) =~= v@.skip(b as int));
    }
    Some((w, b))
}

/// The `n`-th whitespace-separated word of `v` (`split_whitespace().nth(n)`).
pub fn nth_word(v: &Vec<char>, n: usize) -> (r: Option<Vec<char>>)
    ensures
        n < words(v@).len() ==> r is Some && r->0@ == words(v@)[n as int],
        n >= words(v@).len() ==> r is None,
{
    let mut pos: usize = 0;
    let mut count: usize = 0;
    assert(v@.skip(0) =~= v@);
    loop
        invariant
            pos <= v.len(),
            count <= n,
            words(v@).len() == count + words(v@.skip(pos as int)).len(),
            forall|j: int|
                0 <= j < words(v@.skip(pos as int)).len() ==> words(v@)[count + j]
                    == words(v@.skip(pos as int))[j],
        decreases n - count,
    {
        match word_at(v, pos) {
            None => {
                return None;
            },
            Some((w, next)) => {
                let ghost rest = words(v@.skip(next as int));
                let ghost here = words(v@.skip(pos as int));
                if count == n {
                    assert(words(v@)[count + 0] == here[0]);
                    return Some(w);
                }
                proof {
                    assert forall|j: int| 0 <= j < rest.len() implies words(v@)[count + 1 + j]
                        == rest[j] by {
                        assert(here[1 + j] == rest[j]);
                    }
                }
                pos = next;
                count = count + 1;
            },
        }
    }
}


/// Character-wise equality.
pub fn same_chars(a: &Vec<char>, b: &Vec<char>) -> (r: bool)
    ensures
        r == (a@ == b@),
{
    if a.len() != b.len() {
        return false;
    }
    let mut i: usize = 0;
    while i < a.len()
        invariant
            a.len() == b.len(),
            i <= a.len(),
            forall|j: int| 0 <= j < i ==> a@[j] == b@[j],
        decreases a.len() - i,
    {
        if a[i] != b[i] {
            return false;
        }
        i = i + 1;
    }
    assert(a@ =~= b@);
    true
}

/// `v` spells exactly `word`.
pub fn is_word(v: &Vec<char>, word: &str) -> (r: bool)
    ensures
        r == (v@ == word@),
{
    same_chars(v, &chars_of(word))
}

/// Appends an owned copy of `s`.
pub fn push_str(v: &mut Vec<String>, s: &str)
    ensures
        final(v).deep_view() == old(v).deep_view().push(s@),
{
    v.push(String::from_str(s));
    assert(final(v).deep_view() =~= old(v).deep_view().push(s@));
}

/// Appends `s`.
pub fn push_string(v: &mut Vec<String>, s: String)
    ensures
        final(v).deep_view() == old(v).deep_view().push(s@),
{
    v.push(s);
    assert(final(v).deep_view() =~= old(v).deep_view().push(s@));
}

/// `a` followed by `b`.
pub fn join(a: &str, b: &str) -> (r: String)
    ensures
        r@ == a@ + b@,
{
    String::from_str(a).concat(b)
}

} // verus!
