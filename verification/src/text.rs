//! Character-level text helpers on which the rest of the library is built.
//!
//! Text is modelled as `Seq<char>`, the view of `str` and `String`.
use vstd::prelude::*;

verus! {

/// Appends one character to a `String` (`String::push`).
/// Trusted: the new text is the old text followed by `c`.
#[verifier::external_body]
pub(crate) fn push_char(s: &mut String, c: char)
    ensures
        final(s)@ == old(s)@.push(c),
{
    s.push(c);
}

/// The characters of `s`, in order.
pub fn chars_of(s: &str) -> (v: Vec<char>)
    ensures
        v@ == s@,
{
    let mut v: Vec<char> = Vec::new();
    for c in it: s.chars()
        invariant
            v@ == it.seq().take(it.index()),
            it.seq() == s@,
    {
        v.push(c);
        assert(v@ == it.seq().take(it.index() + 1));
    }
    v
}

/// A `String` made of the characters `v[from..to]`.
pub fn string_of_range(v: &Vec<char>, from: usize, to: usize) -> (s: String)
    requires
        from <= to <= v@.len(),
    ensures
        s@ == v@.subrange(from as int, to as int),
{
    let mut s = String::new();
    let mut i: usize = from;
    while i < to
        invariant
            from <= i <= to <= v@.len(),
            s@ == v@.subrange(from as int, i as int),
        decreases to - i,
    {
        push_char(&mut s, v[i]);
        i = i + 1;
        assert(s@ == v@.subrange(from as int, i as int));
    }
    s
}

/// A `String` made of the characters of `v`.
pub fn string_of(v: &Vec<char>) -> (s: String)
    ensures
        s@ == v@,
{
    let s = string_of_range(v, 0, v.len());
    assert(v@.subrange(0, v@.len() as int) == v@);
    s
}

/// Unicode `White_Space`, the set that `char::is_whitespace` tests.
pub open spec fn is_white_space(c: char) -> bool {
    ||| '\u{9}' <= c <= '\u{d}'
    ||| c == ' '
    ||| c == '\u{85}'
    ||| c == '\u{a0}'
    ||| c == '\u{1680}'
    ||| '\u{2000}' <= c <= '\u{200a}'
    ||| c == '\u{2028}'
    ||| c == '\u{2029}'
    ||| c == '\u{202f}'
    ||| c == '\u{205f}'
    ||| c == '\u{3000}'
}

/// Whether `c` is white space in the sense of `is_white_space`.
pub fn is_white(c: char) -> (b: bool)
    ensures
        b == is_white_space(c),
{
    ('\u{9}' <= c && c <= '\u{d}') || c == ' ' || c == '\u{85}' || c == '\u{a0}' || c == '\u{1680}'
        || ('\u{2000}' <= c && c <= '\u{200a}') || c == '\u{2028}' || c == '\u{2029}' || c
        == '\u{202f}' || c == '\u{205f}' || c == '\u{3000}'
}

/// `s` without its leading white space.
pub open spec fn trim_start_spec(s: Seq<char>) -> Seq<char>
    decreases s.len(),
{
    if s.len() > 0 && is_white_space(s[0]) {
        trim_start_spec(s.drop_first())
    } else {
        s
    }
}

/// `s` without its trailing white space.
pub open spec fn trim_end_spec(s: Seq<char>) -> Seq<char>
    decreases s.len(),
{
    if s.len() > 0 && is_white_space(s.last()) {
        trim_end_spec(s.drop_last())
    } else {
        s
    }
}

/// `s` without leading and trailing white space (what `str::trim` returns).
pub open spec fn trim_spec(s: Seq<char>) -> Seq<char> {
    trim_end_spec(trim_start_spec(s))
}

/// Index range `[from, to)` of `v` that `trim` keeps.
pub(crate) fn trim_bounds(v: &Vec<char>) -> (r: (usize, usize))
    ensures
        r.0 <= r.1 <= v@.len(),
        v@.subrange(r.0 as int, r.1 as int) == trim_spec(v@),
{
    let mut i: usize = 0;
    assert(v@.skip(0) == v@);
    while i < v.len() && is_white(v[i])
        invariant
            i <= v@.len(),
            trim_start_spec(v@) == trim_start_spec(v@.skip(i as int)),
        decreases v.len() - i,
    {
        assert(v@.skip(i as int).drop_first() == v@.skip(i + 1));
        i = i + 1;
    }
    assert(trim_start_spec(v@.skip(i as int)) == v@.skip(i as int));
    let ghost u = v@.skip(i as int);
    let mut j: usize = v.len();
    assert(u == v@.subrange(i as int, j as int));
    while j > i && is_white(v[j - 1])
        invariant
            i <= j <= v@.len(),
            u == v@.skip(i as int),
            trim_end_spec(u) == trim_end_spec(v@.subrange(i as int, j as int)),
        decreases j,
    {
        assert(v@.subrange(i as int, j as int).drop_last() == v@.subrange(i as int, j - 1));
        j = j - 1;
    }
    (i, j)
}

/// `s` without leading and trailing white space (`str::trim`).
pub fn trim(s: &str) -> (r: String)
    ensures
        r@ == trim_spec(s@),
{
    let v = chars_of(s);
    let (from, to) = trim_bounds(&v);
    string_of_range(&v, from, to)
}

/// `n` occurs in `h` at position `i`.
pub open spec fn occurs_at(h: Seq<char>, n: Seq<char>, i: int) -> bool {
    0 <= i && i + n.len() <= h.len() && h.subrange(i, i + n.len()) == n
}

/// The first position at or after `i` where `n` occurs in `h`.
pub open spec fn find_from(h: Seq<char>, n: Seq<char>, i: int) -> Option<int>
    decreases h.len() + 1 - i,
{
    if i < 0 || i + n.len() > h.len() {
        None
    } else if occurs_at(h, n, i) {
        Some(i)
    } else {
        find_from(h, n, i + 1)
    }
}

/// The first position where `n` occurs in `h` (what `str::find` gives, counted in characters).
pub open spec fn index_of(h: Seq<char>, n: Seq<char>) -> Option<int> {
    find_from(h, n, 0)
}

/// `h` contains `n` (`str::contains`).
pub open spec fn contains_text(h: Seq<char>, n: Seq<char>) -> bool {
    index_of(h, n) is Some
}

/// What `find_from` finds is the first occurrence from `i` on.
pub(crate) proof fn lemma_find_from(h: Seq<char>, n: Seq<char>, i: int)
    requires
        0 <= i,
    ensures
        match find_from(h, n, i) {
            Some(k) => i <= k && occurs_at(h, n, k) && forall|j: int|
                i <= j < k ==> !occurs_at(h, n, j),
            None => forall|j: int| i <= j ==> !occurs_at(h, n, j),
        },
    decreases h.len() + 1 - i,
{
    if i + n.len() > h.len() {
    } else if occurs_at(h, n, i) {
    } else {
        lemma_find_from(h, n, i + 1);
    }
}

/// `n` occurs in `h` at `i`.
fn matches_at(h: &Vec<char>, n: &Vec<char>, i: usize) -> (b: bool)
    ensures
        b == occurs_at(h@, n@, i as int),
{
    if n.len() > h.len() || i > h.len() - n.len() {
        return false;
    }
    let mut k: usize = 0;
    while k < n.len()
        invariant
            k <= n.len(),
            i + n.len() <= h.len(),
            forall|j: int| 0 <= j < k ==> h@[i + j] == n@[j],
        decreases n.len() - k,
    {
        if h[i + k] != n[k] {
            assert(h@.subrange(i as int, i + n@.len())[k as int] != n@[k as int]);
            return false;
        }
        k = k + 1;
    }
    assert(h@.subrange(i as int, i + n@.len()) == n@);
    true
}

/// The first position at or after `from` where `n` occurs in `h`.
pub fn find_text(h: &Vec<char>, n: &Vec<char>, from: usize) -> (r: Option<usize>)
    ensures
        match r {
            Some(k) => find_from(h@, n@, from as int) == Some(k as int),
            None => find_from(h@, n@, from as int) is None,
        },
{
    let mut i = from;
    while n.len() <= h.len() && i <= h.len() - n.len()
        invariant
            from <= i,
            find_from(h@, n@, from as int) == find_from(h@, n@, i as int),
        decreases h.len() + 1 - i,
    {
        if n.len() == 0 {
            assert(h@.subrange(i as int, i as int) =~= n@);
        }
        if matches_at(h, n, i) {
            return Some(i);
        }
        i = i + 1;
    }
    None
}

/// The first position at or after `i` of a character of `set` in `s`.
pub open spec fn find_any_from(s: Seq<char>, set: Seq<char>, i: int) -> Option<int>
    decreases s.len() - i,
{
    if i < 0 || i >= s.len() {
        None
    } else if set.contains(s[i]) {
        Some(i)
    } else {
        find_any_from(s, set, i + 1)
    }
}

/// What `find_any_from` finds is the first character of `set` from `i` on.
pub(crate) proof fn lemma_find_any_from(s: Seq<char>, set: Seq<char>, i: int)
    requires
        0 <= i,
    ensures
        match find_any_from(s, set, i) {
            Some(k) => i <= k < s.len() && set.contains(s[k]) && forall|j: int|
                i <= j < k ==> !set.contains(#[trigger] s[j]),
            None => forall|j: int| i <= j < s.len() ==> !set.contains(#[trigger] s[j]),
        },
    decreases s.len() - i,
{
    if i < s.len() && !set.contains(s[i]) {
        lemma_find_any_from(s, set, i + 1);
    }
}

/// `set` holds `c`.
fn in_set(set: &Vec<char>, c: char) -> (b: bool)
    ensures
        b == set@.contains(c),
{
    let mut k: usize = 0;
    while k < set.len()
        invariant
            k <= set@.len(),
            forall|j: int| 0 <= j < k ==> set@[j] != c,
        decreases set.len() - k,
    {
        if set[k] == c {
            return true;
        }
        k = k + 1;
    }
    false
}

/// The first position at or after `from` of a character of `set` in `s`.
pub fn find_any(s: &Vec<char>, set: &Vec<char>, from: usize) -> (r: Option<usize>)
    ensures
        match r {
            Some(k) => find_any_from(s@, set@, from as int) == Some(k as int),
            None => find_any_from(s@, set@, from as int) is None,
        },
{
    let mut i = from;
    while i < s.len()
        invariant
            from <= i,
            find_any_from(s@, set@, from as int) == find_any_from(s@, set@, i as int),
        decreases s.len() - i,
    {
        if in_set(set, s[i]) {
            return Some(i);
        }
        i = i + 1;
    }
    None
}

/// `s` with every `c` taken out (`str::replace(c, "")`).
pub open spec fn without(s: Seq<char>, c: char) -> Seq<char> {
    s.filter(|x: char| x != c)
}

/// `v` with every `c` taken out.
pub fn remove_char(v: &Vec<char>, c: char) -> (r: Vec<char>)
    ensures
        r@ == without(v@, c),
{
    let mut r: Vec<char> = Vec::new();
    let mut i: usize = 0;
    while i < v.len()
        invariant
            i <= v@.len(),
            r@ == without(v@.take(i as int), c),
        decreases v.len() - i,
    {
        proof {
            reveal_with_fuel(Seq::<_>::filter, 1);
            assert(v@.take(i + 1).drop_last() == v@.take(i as int));
        }
        if v[i] != c {
            r.push(v[i]);
        }
        i = i + 1;
    }
    assert(v@.take(v@.len() as int) == v@);
    r
}

/// The characters `v[from..to]`.
pub fn slice_of(v: &Vec<char>, from: usize, to: usize) -> (r: Vec<char>)
    requires
        from <= to <= v@.len(),
    ensures
        r@ == v@.subrange(from as int, to as int),
{
    let mut r: Vec<char> = Vec::new();
    let mut i = from;
    while i < to
        invariant
            from <= i <= to <= v@.len(),
            r@ == v@.subrange(from as int, i as int),
        decreases to - i,
    {
        r.push(v[i]);
        i = i + 1;
        assert(r@ == v@.subrange(from as int, i as int));
    }
    r
}

/// The characters of `v` without leading and trailing white space, as a `String`.
pub fn trimmed_string(v: &Vec<char>) -> (r: String)
    ensures
        r@ == trim_spec(v@),
{
    let (from, to) = trim_bounds(v);
    string_of_range(v, from, to)
}

/// Names the text that `str::to_uppercase` makes of `s` (Unicode upper case).
pub uninterp spec fn upper_spec(s: Seq<char>) -> Seq<char>;

/// `s` in upper case (`str::to_uppercase`).
/// Trusted: the result is `upper_spec` of `s`; what the Unicode mapping does to each
/// character is left to the standard library and not stated here.
#[verifier::external_body]
pub(crate) fn to_upper(s: &str) -> (r: String)
    ensures
        r@ == upper_spec(s@),
{
    s.to_uppercase()
}

/// Takes the last character off a `String` (what `String::pop` does): returns it, or
/// `None` on empty text.
pub(crate) fn pop_char(s: &mut String) -> (r: Option<char>)
    ensures
        old(s)@.len() == 0 ==> r is None && final(s)@ == old(s)@,
        old(s)@.len() > 0 ==> r == Some(old(s)@.last()) && final(s)@ == old(s)@.drop_last(),
{
    let v = chars_of(s.as_str());
    if v.len() == 0 {
        return None;
    }
    let c = v[v.len() - 1];
    *s = string_of_range(&v, 0, v.len() - 1);
    assert(v@.subrange(0, v@.len() - 1) == v@.drop_last());
    Some(c)
}

/// An occurrence at `k` with none before it (from `i` on) is what `find_from` finds.
pub(crate) proof fn lemma_find_from_first(h: Seq<char>, n: Seq<char>, i: int, k: int)
    requires
        0 <= i <= k,
        occurs_at(h, n, k),
        forall|j: int| i <= j < k ==> !occurs_at(h, n, j),
    ensures
        find_from(h, n, i) == Some(k),
{
    lemma_find_from(h, n, i);
    match find_from(h, n, i) {
        Some(k2) => {
            if k2 < k {
                assert(!occurs_at(h, n, k2));
            } else if k2 > k {
                assert(!occurs_at(h, n, k));
            }
        },
        None => {
            assert(!occurs_at(h, n, k));
        },
    }
}

/// A text that occurs somewhere is found.
pub(crate) proof fn lemma_occurs_found(h: Seq<char>, n: Seq<char>, k: int)
    requires
        occurs_at(h, n, k),
    ensures
        index_of(h, n) is Some,
{
    lemma_find_from(h, n, 0);
    if index_of(h, n) is None {
        assert(!occurs_at(h, n, k));
    }
}

/// A character of `set` at `k` with none before it (from `i` on) is what `find_any_from` finds.
pub(crate) proof fn lemma_find_any_first(s: Seq<char>, set: Seq<char>, i: int, k: int)
    requires
        0 <= i <= k < s.len(),
        set.contains(s[k]),
        forall|j: int| i <= j < k ==> !set.contains(#[trigger] s[j]),
    ensures
        find_any_from(s, set, i) == Some(k),
{
    lemma_find_any_from(s, set, i);
    match find_any_from(s, set, i) {
        Some(k2) => {
            if k2 < k {
                assert(!set.contains(s[k2]));
            } else if k2 > k {
                assert(!set.contains(s[k]));
            }
        },
        None => {
            assert(!set.contains(s[k]));
        },
    }
}

/// No character of `set` from `i` on: `find_any_from` finds nothing.
pub(crate) proof fn lemma_find_any_none(s: Seq<char>, set: Seq<char>, i: int)
    requires
        0 <= i,
        forall|j: int| i <= j < s.len() ==> !set.contains(#[trigger] s[j]),
    ensures
        find_any_from(s, set, i) is None,
{
    lemma_find_any_from(s, set, i);
    if let Some(k) = find_any_from(s, set, i) {
        assert(!set.contains(s[k]));
    }
}

proof fn lemma_trim_start(s: Seq<char>) -> (i: int)
    ensures
        0 <= i <= s.len(),
        trim_start_spec(s) == s.skip(i),
        forall|k: int| 0 <= k < i ==> is_white_space(#[trigger] s[k]),
        i < s.len() ==> !is_white_space(s[i]),
    decreases s.len(),
{
    if s.len() > 0 && is_white_space(s[0]) {
        let i1 = lemma_trim_start(s.drop_first());
        assert(s.drop_first().skip(i1) == s.skip(i1 + 1));
        assert forall|k: int| 0 <= k < i1 + 1 implies is_white_space(#[trigger] s[k]) by {
            if k > 0 {
                assert(s[k] == s.drop_first()[k - 1]);
            }
        }
        i1 + 1
    } else {
        assert(s.skip(0) == s);
        0
    }
}

proof fn lemma_trim_end(s: Seq<char>) -> (j: int)
    ensures
        0 <= j <= s.len(),
        trim_end_spec(s) == s.take(j),
        forall|k: int| j <= k < s.len() ==> is_white_space(#[trigger] s[k]),
        j > 0 ==> !is_white_space(s[j - 1]),
    decreases s.len(),
{
    if s.len() > 0 && is_white_space(s.last()) {
        let j1 = lemma_trim_end(s.drop_last());
        assert(s.drop_last().take(j1) == s.take(j1));
        assert forall|k: int| j1 <= k < s.len() implies is_white_space(#[trigger] s[k]) by {
            if k < s.len() - 1 {
                assert(s[k] == s.drop_last()[k]);
            }
        }
        j1
    } else {
        assert(s.take(s.len() as int) == s);
        s.len() as int
    }
}

/// `t` is `s[i..j]`, everything outside `[i, j)` is white space, and `t` neither starts
/// nor ends with white space.
pub open spec fn trimmed_at(s: Seq<char>, t: Seq<char>, i: int, j: int) -> bool {
    &&& 0 <= i <= j <= s.len()
    &&& t == s.subrange(i, j)
    &&& forall|k: int| 0 <= k < i ==> is_white_space(#[trigger] s[k])
    &&& forall|k: int| j <= k < s.len() ==> is_white_space(#[trigger] s[k])
    &&& i < j ==> !is_white_space(s[i]) && !is_white_space(s[j - 1])
}

/// Trimming removes white space at both ends and nothing else: the result is a
/// stretch of the text that neither starts nor ends with white space, with only white
/// space before and after it.
pub proof fn law_trim_removes_only_outer_white_space(s: Seq<char>)
    ensures
        exists|i: int, j: int| #[trigger] trimmed_at(s, trim_spec(s), i, j),
{
    let i = lemma_trim_start(s);
    let u = s.skip(i);
    let j = lemma_trim_end(u);
    assert(u.take(j) == s.subrange(i, i + j));
    assert forall|k: int| i + j <= k < s.len() implies is_white_space(#[trigger] s[k]) by {
        assert(s[k] == u[k - i]);
    }
    if j > 0 {
        assert(s[i] == u[0]);
        assert(s[i + j - 1] == u[j - 1]);
        if u.len() > 0 {
            assert(!is_white_space(u[0]));
        }
    }
    assert(trimmed_at(s, trim_spec(s), i, i + j));
}

/// Searching finds the first place where the text occurs, and nothing only where it
/// occurs nowhere.
pub proof fn law_index_of_is_first_occurrence(h: Seq<char>, n: Seq<char>)
    ensures
        index_of(h, n) matches Some(k) ==> occurs_at(h, n, k) && forall|j: int|
            0 <= j < k ==> !occurs_at(h, n, j),
        index_of(h, n) is None ==> forall|j: int| 0 <= j ==> !occurs_at(h, n, j),
        occurs_at(h, n, 0) ==> index_of(h, n) == Some(0int),
{
    lemma_find_from(h, n, 0);
    if occurs_at(h, n, 0) {
        lemma_find_from_first(h, n, 0, 0);
    }
}

/// `occurs_at` is a plain character-by-character match.
pub proof fn law_occurs_at_matches_characters(h: Seq<char>, n: Seq<char>, i: int)
    requires
        0 <= i,
        i + n.len() <= h.len(),
    ensures
        occurs_at(h, n, i) <==> forall|k: int| 0 <= k < n.len() ==> h[i + k] == n[k],
{
    if forall|k: int| 0 <= k < n.len() ==> h[i + k] == n[k] {
        assert(h.subrange(i, i + n.len()) =~= n);
    }
    if occurs_at(h, n, i) {
        assert forall|k: int| 0 <= k < n.len() implies h[i + k] == n[k] by {
            assert(h.subrange(i, i + n.len())[k] == h[i + k]);
        }
    }
}

} // verus!
