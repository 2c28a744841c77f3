//! Character-sequence primitives: the std string operations the classifier
//! uses, each with a specification over `Seq<char>`.
use vstd::prelude::*;

verus! {

/// `String::push` appends one character.
pub assume_specification[ String::push ](s: &mut String, ch: char)
    ensures
        final(s)@ == old(s)@.push(ch),
;

/// The characters of a string slice, in order.
pub fn chars_of(s: &str) -> (r: Vec<char>)
    ensures
        r@ == s@,
{
    let mut r: Vec<char> = Vec::new();
    for c in it: s.chars()
        invariant
            r@ == it.seq().take(it.index() as int),
            it.seq() == s@,
    {
        r.push(c);
    }
    r
}


/// A `String` holding exactly the given characters.
pub fn string_of(v: &[char]) -> (r: String)
    ensures
        r@ == v@,
{
    let mut r = String::new();
    let mut i: usize = 0;
    while i < v.len()
        invariant
            i <= v.len(),
            r@ == v@.subrange(0, i as int),
        decreases v.len() - i,
    {
        r.push(v[i]);
        i = i + 1;
        assert(r@ =~= v@.subrange(0, i as int));
    }
    assert(v@.subrange(0, v.len() as int) =~= v@);
    r
}

/// A copy of `s[lo..hi]`.
pub fn copy_range(s: &[char], lo: usize, hi: usize) -> (r: Vec<char>)
    requires
        lo <= hi <= s.len(),
    ensures
        r@ == s@.subrange(lo as int, hi as int),
{
    let mut r: Vec<char> = Vec::new();
    let mut i: usize = lo;
    while i < hi
        invariant
            lo <= i <= hi <= s.len(),
            r@ == s@.subrange(lo as int, i as int),
        decreases hi - i,
    {
        r.push(s[i]);
        i = i + 1;
        assert(r@ =~= s@.subrange(lo as int, i as int));
    }
    r
}

/// The Unicode `White_Space` property, which `char::is_whitespace` tests.
pub open spec fn is_ws(c: char) -> bool {
    let u = c as u32;
    ||| 0x9 <= u <= 0xd
    ||| u == 0x20
    ||| u == 0x85
    ||| u == 0xa0
    ||| u == 0x1680
    ||| 0x2000 <= u <= 0x200a
    ||| u == 0x2028
    ||| u == 0x2029
    ||| u == 0x202f
    ||| u == 0x205f
    ||| u == 0x3000
}

pub fn char_is_ws(c: char) -> (r: bool)
    ensures
        r == is_ws(c),
{
    let u = c as u32;
    (0x9 <= u && u <= 0xd) || u == 0x20 || u == 0x85 || u == 0xa0 || u == 0x1680 || (0x2000 <= u
        && u <= 0x200a) || u == 0x2028 || u == 0x2029 || u == 0x202f || u == 0x205f || u == 0x3000
}

/// `c` is one of `set`, or (when `ws`) a whitespace character.
pub open spec fn in_set(c: char, set: Seq<char>, ws: bool) -> bool {
    set.contains(c) || (ws && is_ws(c))
}

pub fn char_in_set(c: char, set: &[char], ws: bool) -> (r: bool)
    ensures
        r == in_set(c, set@, ws),
{
    let mut i: usize = 0;
    while i < set.len()
        invariant
            i <= set.len(),
            forall|k: int| 0 <= k < i ==> set@[k] != c,
        decreases set.len() - i,
    {
        if set[i] == c {
            assert(set@[i as int] == c);
            return true;
        }
        i = i + 1;
    }
    if ws {
        char_is_ws(c)
    } else {
        false
    }
}

/// `s` with every leading character that is in the set removed.
pub open spec fn trim_start_set(s: Seq<char>, set: Seq<char>, ws: bool) -> Seq<char>
    decreases s.len(),
{
    if s.len() > 0 && in_set(s[0], set, ws) {
        trim_start_set(s.drop_first(), set, ws)
    } else {
        s
    }
}

/// `s` with every trailing character that is in the set removed.
pub open spec fn trim_end_set(s: Seq<char>, set: Seq<char>, ws: bool) -> Seq<char>
    decreases s.len(),
{
    if s.len() > 0 && in_set(s.last(), set, ws) {
        trim_end_set(s.drop_last(), set, ws)
    } else {
        s
    }
}

/// `s` with the set's characters removed from both ends (`str::trim_matches`).
pub open spec fn trim_set(s: Seq<char>, set: Seq<char>, ws: bool) -> Seq<char> {
    trim_end_set(trim_start_set(s, set, ws), set, ws)
}

/// `str::trim`: leading and trailing whitespace removed.
pub open spec fn trim(s: Seq<char>) -> Seq<char> {
    trim_set(s, seq![], true)
}

/// `str::trim_start`.
pub open spec fn trim_start(s: Seq<char>) -> Seq<char> {
    trim_start_set(s, seq![], true)
}

/// `str::trim_end`.
pub open spec fn trim_end(s: Seq<char>) -> Seq<char> {
    trim_end_set(s, seq![], true)
}

/// `str::trim_matches` with a single character.
pub open spec fn trim_char(s: Seq<char>, c: char) -> Seq<char> {
    trim_set(s, seq![c], false)
}

pub fn trim_start_in(s: &[char], set: &[char], ws: bool) -> (r: Vec<char>)
    ensures
        r@ == trim_start_set(s@, set@, ws),
{
    let mut lo: usize = 0;
    assert(s@.subrange(0, s.len() as int) =~= s@);
    while lo < s.len() && char_in_set(s[lo], set, ws)
        invariant
            lo <= s.len(),
            trim_start_set(s@, set@, ws) == trim_start_set(s@.subrange(lo as int, s.len() as int),
                set@, ws),
        decreases s.len() - lo,
    {
        assert(s@.subrange(lo as int, s.len() as int).drop_first() =~= s@.subrange(
            lo + 1,
            s.len() as int,
        ));
        lo = lo + 1;
    }
    copy_range(s, lo, s.len())
}

pub fn trim_end_in(s: &[char], set: &[char], ws: bool) -> (r: Vec<char>)
    ensures
        r@ == trim_end_set(s@, set@, ws),
{
    let mut hi: usize = s.len();
    assert(s@.subrange(0, hi as int) =~= s@);
    while hi > 0 && char_in_set(s[hi - 1], set, ws)
        invariant
            hi <= s.len(),
            trim_end_set(s@, set@, ws) == trim_end_set(s@.subrange(0, hi as int), set@, ws),
        decreases hi,
    {
        assert(s@.subrange(0, hi as int).drop_last() =~= s@.subrange(0, hi - 1));
        hi = hi - 1;
    }
    copy_range(s, 0, hi)
}

pub fn trim_in(s: &[char], set: &[char], ws: bool) -> (r: Vec<char>)
    ensures
        r@ == trim_set(s@, set@, ws),
{
    let a = trim_start_in(s, set, ws);
    trim_end_in(&a, set, ws)
}

pub fn trim_ws(s: &[char]) -> (r: Vec<char>)
    ensures
        r@ == trim(s@),
{
    let none: Vec<char> = Vec::new();
    assert(none@ =~= seq![]);
    trim_in(s, &none, true)
}

pub fn trim_start_ws(s: &[char]) -> (r: Vec<char>)
    ensures
        r@ == trim_start(s@),
{
    let none: Vec<char> = Vec::new();
    assert(none@ =~= seq![]);
    trim_start_in(s, &none, true)
}

pub fn trim_end_ws(s: &[char]) -> (r: Vec<char>)
    ensures
        r@ == trim_end(s@),
{
    let none: Vec<char> = Vec::new();
    assert(none@ =~= seq![]);
    trim_end_in(s, &none, true)
}

pub fn trim_matching(s: &[char], c: char) -> (r: Vec<char>)
    ensures
        r@ == trim_char(s@, c),
{
    let set: Vec<char> = vec![c];
    assert(set@ =~= seq![c]);
    trim_in(s, &set, false)
}

/// ASCII lowercase of one character (`char::to_ascii_lowercase`).
pub open spec fn ascii_lower(c: char) -> char {
    if 'A' <= c && c <= 'Z' {
        ((c as u32) + 32) as char
    } else {
        c
    }
}

/// `str::to_ascii_lowercase`.
pub open spec fn lower(s: Seq<char>) -> Seq<char> {
    s.map_values(|c: char| ascii_lower(c))
}

pub fn char_lower(c: char) -> (r: char)
    ensures
        r == ascii_lower(c),
{
    if 'A' <= c && c <= 'Z' {
        ((c as u8) + 32) as char
    } else {
        c
    }
}

pub fn to_lower(s: &[char]) -> (r: Vec<char>)
    ensures
        r@ == lower(s@),
{
    let mut r: Vec<char> = Vec::new();
    let mut i: usize = 0;
    while i < s.len()
        invariant
            i <= s.len(),
            r@ == lower(s@.subrange(0, i as int)),
        decreases s.len() - i,
    {
        r.push(char_lower(s[i]));
        i = i + 1;
        assert(r@ =~= lower(s@.subrange(0, i as int)));
    }
    assert(s@.subrange(0, s.len() as int) =~= s@);
    r
}

/// Equality of two character sequences.
pub fn seq_eq(a: &[char], b: &[char]) -> (r: bool)
    ensures
        r == (a@ == b@),
{
    if a.len() != b.len() {
        return false;
    }
    let mut i: usize = 0;
    while i < a.len()
        invariant
            a.len() == b.len(),
            i <= a.len(),
            forall|k: int| 0 <= k < i ==> a@[k] == b@[k],
        decreases a.len() - i,
    {
        if a[i] != b[i] {
            return false;
        }
        i = i + 1;
    }
    assert(a@ =~= b@);
    true
}

/// Equality of a character sequence and a string literal.
pub fn eq_lit(a: &[char], lit: &str) -> (r: bool)
    ensures
        r == (a@ == lit@),
{
    let b = chars_of(lit);
    seq_eq(a, &b)
}

/// `s` begins with `p`.
pub open spec fn starts_with(s: Seq<char>, p: Seq<char>) -> bool {
    p.len() <= s.len() && s.subrange(0, p.len() as int) == p
}

/// `s` ends with `p`.
pub open spec fn ends_with(s: Seq<char>, p: Seq<char>) -> bool {
    p.len() <= s.len() && s.subrange(s.len() - p.len(), s.len() as int) == p
}

/// `p` occurs in `s` at index `i`.
pub open spec fn matches_at(s: Seq<char>, p: Seq<char>, i: int) -> bool {
    0 <= i && i + p.len() <= s.len() && s.subrange(i, i + p.len()) == p
}

/// `str::contains` with a string pattern.
pub open spec fn contains(s: Seq<char>, p: Seq<char>) -> bool {
    exists|i: int| matches_at(s, p, i)
}

/// `str::strip_prefix`.
pub open spec fn strip_prefix(s: Seq<char>, p: Seq<char>) -> Option<Seq<char>> {
    if starts_with(s, p) {
        Some(s.subrange(p.len() as int, s.len() as int))
    } else {
        None
    }
}

/// `str::strip_suffix`.
pub open spec fn strip_suffix(s: Seq<char>, p: Seq<char>) -> Option<Seq<char>> {
    if ends_with(s, p) {
        Some(s.subrange(0, s.len() - p.len()))
    } else {
        None
    }
}

pub fn is_match_at(s: &[char], p: &[char], i: usize) -> (r: bool)
    ensures
        r == matches_at(s@, p@, i as int),
{
    if i > s.len() || p.len() > s.len() - i {
        return false;
    }
    let mut k: usize = 0;
    while k < p.len()
        invariant
            i + p.len() <= s.len(),
            k <= p.len(),
            forall|m: int| 0 <= m < k ==> s@[i + m] == p@[m],
        decreases p.len() - k,
    {
        if s[i + k] != p[k] {
            assert(s@.subrange(i as int, i + p.len())[k as int] != p@[k as int]);
            return false;
        }
        k = k + 1;
    }
    assert(s@.subrange(i as int, i + p.len()) =~= p@);
    true
}

pub fn has_prefix(s: &[char], p: &[char]) -> (r: bool)
    ensures
        r == starts_with(s@, p@),
{
    is_match_at(s, p, 0)
}

pub fn has_suffix(s: &[char], p: &[char]) -> (r: bool)
    ensures
        r == ends_with(s@, p@),
{
    if p.len() > s.len() {
        false
    } else {
        is_match_at(s, p, s.len() - p.len())
    }
}

pub fn has_prefix_lit(s: &[char], p: &str) -> (r: bool)
    ensures
        r == starts_with(s@, p@),
{
    let pv = chars_of(p);
    has_prefix(s, &pv)
}

pub fn has_suffix_lit(s: &[char], p: &str) -> (r: bool)
    ensures
        r == ends_with(s@, p@),
{
    let pv = chars_of(p);
    has_suffix(s, &pv)
}

pub fn strip_prefix_lit(s: &[char], p: &str) -> (r: Option<Vec<char>>)
    ensures
        match r {
            Some(v) => strip_prefix(s@, p@) == Some(v@),
            None => strip_prefix(s@, p@) is None,
        },
{
    let pv = chars_of(p);
    if has_prefix(s, &pv) {
        Some(copy_range(s, pv.len(), s.len()))
    } else {
        None
    }
}

pub fn strip_suffix_lit(s: &[char], p: &str) -> (r: Option<Vec<char>>)
    ensures
        match r {
            Some(v) => strip_suffix(s@, p@) == Some(v@),
            None => strip_suffix(s@, p@) is None,
        },
{
    let pv = chars_of(p);
    if has_suffix(s, &pv) {
        Some(copy_range(s, 0, s.len() - pv.len()))
    } else {
        None
    }
}

pub fn contains_seq(s: &[char], p: &[char]) -> (r: bool)
    ensures
        r == contains(s@, p@),
{
    if p.len() > s.len() {
        return false;
    }
    if p.len() == 0 {
        assert(s@.subrange(0, 0) =~= p@);
        assert(matches_at(s@, p@, 0));
        return true;
    }
    let mut i: usize = 0;
    while i <= s.len() - p.len()
        invariant
            0 < p.len() <= s.len(),
            i <= s.len() - p.len() + 1,
            forall|k: int| 0 <= k < i ==> !matches_at(s@, p@, k),
        decreases s.len() - p.len() + 1 - i,
    {
        if is_match_at(s, p, i) {
            return true;
        }
        i = i + 1;
    }
    false
}

pub fn contains_lit(s: &[char], p: &str) -> (r: bool)
    ensures
        r == contains(s@, p@),
{
    let pv = chars_of(p);
    contains_seq(s, &pv)
}

/// The first index at or after `i` where `p` occurs in `s`.
pub open spec fn find_from(s: Seq<char>, p: Seq<char>, i: int) -> Option<int>
    decreases s.len() + 1 - i,
{
    if i < 0 || i + p.len() > s.len() {
        None
    } else if matches_at(s, p, i) {
        Some(i)
    } else {
        find_from(s, p, i + 1)
    }
}

/// A found index is an occurrence, at or after the start.
pub proof fn lemma_find_from_matches(s: Seq<char>, p: Seq<char>, i: int)
    ensures
        find_from(s, p, i) matches Some(k) ==> i <= k && matches_at(s, p, k),
    decreases s.len() + 1 - i,
{
    if !(i < 0 || i + p.len() > s.len()) && !matches_at(s, p, i) {
        lemma_find_from_matches(s, p, i + 1);
    }
}

/// `str::find` with a string pattern.
pub open spec fn find(s: Seq<char>, p: Seq<char>) -> Option<int> {
    find_from(s, p, 0)
}

pub fn find_seq(s: &[char], p: &[char]) -> (r: Option<usize>)
    ensures
        match r {
            Some(i) => find(s@, p@) == Some(i as int) && matches_at(s@, p@, i as int),
            None => find(s@, p@) is None,
        },
{
    proof {
        lemma_find_from_matches(s@, p@, 0);
    }
    if p.len() > s.len() {
        return None;
    }
    if p.len() == 0 {
        assert(s@.subrange(0, 0) =~= p@);
        return Some(0);
    }
    let mut i: usize = 0;
    while i <= s.len() - p.len()
        invariant
            0 < p.len() <= s.len(),
            i <= s.len() - p.len() + 1,
            find(s@, p@) == find_from(s@, p@, i as int),
        decreases s.len() - p.len() + 1 - i,
    {
        if is_match_at(s, p, i) {
            return Some(i);
        }
        i = i + 1;
    }
    None
}

pub fn find_lit(s: &[char], p: &str) -> (r: Option<usize>)
    ensures
        match r {
            Some(i) => find(s@, p@) == Some(i as int) && matches_at(s@, p@, i as int),
            None => find(s@, p@) is None,
        },
{
    let pv = chars_of(p);
    find_seq(s, &pv)
}


/// The views of a sequence of character vectors.
pub open spec fn seqs_of(v: Seq<Vec<char>>) -> Seq<Seq<char>> {
    v.map_values(|l: Vec<char>| l@)
}

/// One `'\r'` removed from the end, if present.
pub open spec fn strip_cr(l: Seq<char>) -> Seq<char> {
    if l.len() > 0 && l.last() == '\r' {
        l.drop_last()
    } else {
        l
    }
}

/// Reading `s` left to right: the lines already ended by `'\n'` (each
/// without its `"\n"` or `"\r\n"` terminator) and the unterminated rest.
pub open spec fn line_state(s: Seq<char>) -> (Seq<Seq<char>>, Seq<char>)
    decreases s.len(),
{
    if s.len() == 0 {
        (seq![], seq![])
    } else {
        let (ls, cur) = line_state(s.drop_last());
        if s.last() == '\n' {
            (ls.push(strip_cr(cur)), seq![])
        } else {
            (ls, cur.push(s.last()))
        }
    }
}

/// `str::lines`: the lines of `s`; a final line without a terminator is kept
/// as it stands, and an empty rest after the last `'\n'` is no line.
pub open spec fn lines(s: Seq<char>) -> Seq<Seq<char>> {
    let (ls, cur) = line_state(s);
    if cur.len() == 0 {
        ls
    } else {
        ls.push(cur)
    }
}

pub fn drop_cr(l: Vec<char>) -> (r: Vec<char>)
    ensures
        r@ == strip_cr(l@),
{
    if l.len() > 0 && l[l.len() - 1] == '\r' {
        copy_range(&l, 0, l.len() - 1)
    } else {
        l
    }
}

pub fn lines_of(s: &[char]) -> (r: Vec<Vec<char>>)
    ensures
        seqs_of(r@) == lines(s@),
{
    let mut ls: Vec<Vec<char>> = Vec::new();
    let mut cur: Vec<char> = Vec::new();
    let mut i: usize = 0;
    assert(seqs_of(ls@) =~= seq![]);
    while i < s.len()
        invariant
            i <= s.len(),
            (seqs_of(ls@), cur@) == line_state(s@.subrange(0, i as int)),
        decreases s.len() - i,
    {
        assert(s@.subrange(0, i + 1).drop_last() =~= s@.subrange(0, i as int));
        if s[i] == '\n' {
            let done = drop_cr(cur);
            ls.push(done);
            cur = Vec::new();
            assert(cur@ =~= seq![]);
        } else {
            cur.push(s[i]);
        }
        i = i + 1;
        assert(seqs_of(ls@) =~= line_state(s@.subrange(0, i as int)).0);
    }
    assert(s@.subrange(0, s.len() as int) =~= s@);
    if cur.len() > 0 {
        ls.push(cur);
    }
    assert(seqs_of(ls@) =~= lines(s@));
    ls
}

/// Reading `s` left to right: the pieces already ended by `c` and the rest.
pub open spec fn split_state(s: Seq<char>, c: char) -> (Seq<Seq<char>>, Seq<char>)
    decreases s.len(),
{
    if s.len() == 0 {
        (seq![], seq![])
    } else {
        let (ps, cur) = split_state(s.drop_last(), c);
        if s.last() == c {
            (ps.push(cur), seq![])
        } else {
            (ps, cur.push(s.last()))
        }
    }
}

/// `str::split` on one character: always at least one piece.
pub open spec fn split(s: Seq<char>, c: char) -> Seq<Seq<char>> {
    let (ps, cur) = split_state(s, c);
    ps.push(cur)
}

pub fn split_on(s: &[char], c: char) -> (r: Vec<Vec<char>>)
    ensures
        seqs_of(r@) == split(s@, c),
{
    let mut ps: Vec<Vec<char>> = Vec::new();
    let mut cur: Vec<char> = Vec::new();
    let mut i: usize = 0;
    assert(seqs_of(ps@) =~= seq![]);
    while i < s.len()
        invariant
            i <= s.len(),
            (seqs_of(ps@), cur@) == split_state(s@.subrange(0, i as int), c),
        decreases s.len() - i,
    {
        assert(s@.subrange(0, i + 1).drop_last() =~= s@.subrange(0, i as int));
        if s[i] == c {
            ps.push(cur);
            cur = Vec::new();
            assert(cur@ =~= seq![]);
        } else {
            cur.push(s[i]);
        }
        i = i + 1;
        assert(seqs_of(ps@) =~= split_state(s@.subrange(0, i as int), c).0);
    }
    assert(s@.subrange(0, s.len() as int) =~= s@);
    ps.push(cur);
    assert(seqs_of(ps@) =~= split(s@, c));
    ps
}

/// How many times `c` occurs in `s`.
pub open spec fn count_char(s: Seq<char>, c: char) -> nat
    decreases s.len(),
{
    if s.len() == 0 {
        0
    } else {
        count_char(s.drop_last(), c) + if s.last() == c {
            1nat
        } else {
            0nat
        }
    }
}

pub fn count_of(s: &[char], c: char) -> (r: usize)
    ensures
        r == count_char(s@, c),
{
    let mut n: usize = 0;
    let mut i: usize = 0;
    while i < s.len()
        invariant
            i <= s.len(),
            n == count_char(s@.subrange(0, i as int), c),
            n <= i,
        decreases s.len() - i,
    {
        assert(s@.subrange(0, i + 1).drop_last() =~= s@.subrange(0, i as int));
        if s[i] == c {
            n = n + 1;
        }
        i = i + 1;
    }
    assert(s@.subrange(0, s.len() as int) =~= s@);
    n
}

/// What follows the last `c` in `s` (all of `s` when there is none):
/// `s.rsplit(c).next()`.
pub open spec fn after_last(s: Seq<char>, c: char) -> Seq<char>
    decreases s.len(),
{
    if s.len() == 0 {
        s
    } else if s.last() == c {
        seq![]
    } else {
        after_last(s.drop_last(), c).push(s.last())
    }
}

pub fn after_last_of(s: &[char], c: char) -> (r: Vec<char>)
    ensures
        r@ == after_last(s@, c),
{
    let mut hi: usize = s.len();
    assert(s@.subrange(0, hi as int) =~= s@);
    assert(s@ =~= s@ + s@.subrange(hi as int, s.len() as int));
    while hi > 0 && s[hi - 1] != c
        invariant
            hi <= s.len(),
            after_last(s@, c) == after_last(s@.subrange(0, hi as int), c) + s@.subrange(
                hi as int,
                s.len() as int,
            ),
        decreases hi,
    {
        let ghost pre = s@.subrange(0, hi - 1);
        assert(s@.subrange(0, hi as int).drop_last() =~= pre);
        assert(after_last(pre, c).push(s@[hi - 1]) + s@.subrange(hi as int, s.len() as int)
            =~= after_last(pre, c) + s@.subrange(hi - 1, s.len() as int));
        hi = hi - 1;
    }
    assert(after_last(s@.subrange(0, hi as int), c) =~= seq![]);
    assert(after_last(s@, c) =~= s@.subrange(hi as int, s.len() as int));
    copy_range(s, hi, s.len())
}

/// The index of the first character of `s` at or after `i` that is in `set`
/// (the length of `s` when there is none).
pub open spec fn first_in_from(s: Seq<char>, set: Seq<char>, i: int) -> int
    decreases s.len() - i,
{
    if i < 0 || i >= s.len() {
        s.len() as int
    } else if set.contains(s[i]) {
        i
    } else {
        first_in_from(s, set, i + 1)
    }
}

/// What precedes the first character of `s` that is in `set`:
/// `s.split(set).next()`.
pub open spec fn before_first(s: Seq<char>, set: Seq<char>) -> Seq<char> {
    s.take(first_in_from(s, set, 0))
}

pub fn before_first_of(s: &[char], set: &[char]) -> (r: Vec<char>)
    ensures
        r@ == before_first(s@, set@),
{
    let mut i: usize = 0;
    while i < s.len() && !char_in_set(s[i], set, false)
        invariant
            i <= s.len(),
            first_in_from(s@, set@, 0) == first_in_from(s@, set@, i as int),
        decreases s.len() - i,
    {
        i = i + 1;
    }
    assert(first_in_from(s@, set@, i as int) == i);
    assert(s@.take(i as int) =~= s@.subrange(0, i as int));
    copy_range(s, 0, i)
}

/// The pieces of `ls` joined with `sep` between them (`[&str]::join`).
pub open spec fn join(ls: Seq<Seq<char>>, sep: Seq<char>) -> Seq<char>
    decreases ls.len(),
{
    if ls.len() == 0 {
        seq![]
    } else if ls.len() == 1 {
        ls[0]
    } else {
        join(ls.drop_last(), sep) + sep + ls.last()
    }
}

pub fn join_with(ls: &Vec<Vec<char>>, sep: char) -> (r: Vec<char>)
    ensures
        r@ == join(seqs_of(ls@), seq![sep]),
{
    let mut r: Vec<char> = Vec::new();
    let mut i: usize = 0;
    while i < ls.len()
        invariant
            i <= ls.len(),
            r@ == join(seqs_of(ls@).take(i as int), seq![sep]),
        decreases ls.len() - i,
    {
        let ghost before = r@;
        assert(seqs_of(ls@).take(i + 1).drop_last() =~= seqs_of(ls@).take(i as int));
        if i > 0 {
            r.push(sep);
        }
        let piece = &ls[i];
        let mut k: usize = 0;
        let ghost mid = r@;
        while k < piece.len()
            invariant
                k <= piece.len(),
                r@ == mid + piece@.subrange(0, k as int),
            decreases piece.len() - k,
        {
            r.push(piece[k]);
            k = k + 1;
            assert(r@ =~= mid + piece@.subrange(0, k as int));
        }
        assert(piece@.subrange(0, piece.len() as int) =~= piece@);
        i = i + 1;
        if i == 1 {
            assert(r@ =~= join(seqs_of(ls@).take(i as int), seq![sep]));
        } else {
            assert(r@ =~= join(seqs_of(ls@).take(i as int), seq![sep]));
        }
    }
    assert(seqs_of(ls@).take(ls.len() as int) =~= seqs_of(ls@));
    r
}


/// `s` with every trailing copy of a non-empty `p` removed
/// (`str::trim_end_matches` with a string pattern).
pub open spec fn trim_end_matches(s: Seq<char>, p: Seq<char>) -> Seq<char>
    decreases s.len(),
{
    if p.len() > 0 && ends_with(s, p) {
        trim_end_matches(s.subrange(0, s.len() - p.len()), p)
    } else {
        s
    }
}

pub fn trim_end_matches_lit(s: &[char], p: &str) -> (r: Vec<char>)
    ensures
        r@ == trim_end_matches(s@, p@),
{
    let pv = chars_of(p);
    let mut hi: usize = s.len();
    assert(s@.subrange(0, hi as int) =~= s@);
    while pv.len() > 0 && pv.len() <= hi && is_match_at(s, &pv, hi - pv.len())
        invariant
            hi <= s.len(),
            pv@ == p@,
            trim_end_matches(s@, p@) == trim_end_matches(s@.subrange(0, hi as int), p@),
        decreases hi,
    {
        let ghost cur = s@.subrange(0, hi as int);
        assert(cur.subrange(cur.len() - pv@.len(), cur.len() as int) =~= s@.subrange(
            hi - pv@.len(),
            hi as int,
        ));
        assert(cur.subrange(0, cur.len() - pv@.len()) =~= s@.subrange(0, hi - pv@.len()));
        hi = hi - pv.len();
    }
    let ghost cur = s@.subrange(0, hi as int);
    if pv.len() > 0 && pv.len() <= hi {
        assert(cur.subrange(cur.len() - pv@.len(), cur.len() as int) =~= s@.subrange(
            hi - pv@.len(),
            hi as int,
        ));
    }
    copy_range(s, 0, hi)
}

/// The views of a sequence of strings.
pub open spec fn strings_view(v: Seq<String>) -> Seq<Seq<char>> {
    v.map_values(|s: String| s@)
}

/// Each character vector as a `String`.
pub fn strings_of(v: &Vec<Vec<char>>) -> (r: Vec<String>)
    ensures
        strings_view(r@) == seqs_of(v@),
{
    let mut r: Vec<String> = Vec::new();
    let mut i: usize = 0;
    while i < v.len()
        invariant
            i <= v.len(),
            strings_view(r@) =~= seqs_of(v@).take(i as int),
        decreases v.len() - i,
    {
        let ghost prev = strings_view(r@);
        let s = string_of(&v[i]);
        r.push(s);
        assert(strings_view(r@) =~= prev.push(v@[i as int]@));
        i = i + 1;
    }
    assert(seqs_of(v@).take(v.len() as int) =~= seqs_of(v@));
    r
}


/// Reading `s` left to right: the whitespace-separated words already ended
/// and the word being read.
pub open spec fn word_state(s: Seq<char>) -> (Seq<Seq<char>>, Seq<char>)
    decreases s.len(),
{
    if s.len() == 0 {
        (seq![], seq![])
    } else {
        let (ws, cur) = word_state(s.drop_last());
        if is_ws(s.last()) {
            if cur.len() > 0 {
                (ws.push(cur), seq![])
            } else {
                (ws, seq![])
            }
        } else {
            (ws, cur.push(s.last()))
        }
    }
}

/// `str::split_whitespace`: the maximal runs of non-whitespace characters.
pub open spec fn words(s: Seq<char>) -> Seq<Seq<char>> {
    let (ws, cur) = word_state(s);
    if cur.len() > 0 {
        ws.push(cur)
    } else {
        ws
    }
}

/// `s` with surrounding whitespace removed and every inner run of whitespace
/// replaced by one space.
pub open spec fn collapse_ws(s: Seq<char>) -> Seq<char> {
    join(words(s), seq![' '])
}

pub fn collapse_whitespace(s: &[char]) -> (r: Vec<char>)
    ensures
        r@ == collapse_ws(s@),
{
    let mut ws: Vec<Vec<char>> = Vec::new();
    let mut cur: Vec<char> = Vec::new();
    let mut i: usize = 0;
    assert(seqs_of(ws@) =~= seq![]);
    while i < s.len()
        invariant
            i <= s.len(),
            (seqs_of(ws@), cur@) == word_state(s@.subrange(0, i as int)),
        decreases s.len() - i,
    {
        assert(s@.subrange(0, i + 1).drop_last() =~= s@.subrange(0, i as int));
        if char_is_ws(s[i]) {
            if cur.len() > 0 {
                ws.push(cur);
            }
            cur = Vec::new();
            assert(cur@ =~= seq![]);
        } else {
            cur.push(s[i]);
        }
        i = i + 1;
        assert(seqs_of(ws@) =~= word_state(s@.subrange(0, i as int)).0);
    }
    assert(s@.subrange(0, s.len() as int) =~= s@);
    if cur.len() > 0 {
        ws.push(cur);
    }
    assert(seqs_of(ws@) =~= words(s@));
    join_with(&ws, ' ')
}


/// After removing leading set characters, the first character (if any) is
/// not in the set.
pub proof fn lemma_trim_start_set_first(s: Seq<char>, set: Seq<char>, ws: bool)
    ensures
        trim_start_set(s, set, ws).len() == 0 || !in_set(trim_start_set(s, set, ws)[0], set, ws),
    decreases s.len(),
{
    if s.len() > 0 && in_set(s[0], set, ws) {
        lemma_trim_start_set_first(s.drop_first(), set, ws);
    }
}

/// Removing trailing set characters leaves a prefix whose last character
/// (if any) is not in the set.
pub proof fn lemma_trim_end_set_prefix(s: Seq<char>, set: Seq<char>, ws: bool)
    ensures
        trim_end_set(s, set, ws).len() <= s.len(),
        trim_end_set(s, set, ws) == s.subrange(0, trim_end_set(s, set, ws).len() as int),
        trim_end_set(s, set, ws).len() == 0 || !in_set(trim_end_set(s, set, ws).last(), set, ws),
    decreases s.len(),
{
    if s.len() > 0 && in_set(s.last(), set, ws) {
        lemma_trim_end_set_prefix(s.drop_last(), set, ws);
        let u = trim_end_set(s.drop_last(), set, ws);
        assert(s.drop_last().subrange(0, u.len() as int) =~= s.subrange(0, u.len() as int));
    } else {
        assert(s.subrange(0, s.len() as int) =~= s);
    }
}

/// Trimming a set from both ends twice is trimming it once.
pub proof fn lemma_trim_set_idempotent(s: Seq<char>, set: Seq<char>, ws: bool)
    ensures
        trim_set(trim_set(s, set, ws), set, ws) == trim_set(s, set, ws),
{
    let r = trim_start_set(s, set, ws);
    let u = trim_end_set(r, set, ws);
    lemma_trim_start_set_first(s, set, ws);
    lemma_trim_end_set_prefix(r, set, ws);
    if u.len() > 0 {
        assert(u[0] == r[0]);
    }
    assert(trim_start_set(u, set, ws) == u);
    assert(trim_end_set(u, set, ws) == u);
}

} // verus!
