//! Character-sequence utilities with the meaning of the corresponding `str`
//! methods stated over `Seq<char>`.
use vstd::prelude::*;
use vstd::utf8::{decode_utf8, valid_utf8};

verus! {

/// The characters of `s`, in order.
pub fn chars_of(s: &str) -> (v: Vec<char>)
    ensures
        v@ == s@,
{
    let mut v: Vec<char> = Vec::new();
    for c in it: s.chars()
        invariant
            it.seq() == s@,
            v@ == it.seq().take(it.index() as int),
    {
        v.push(c);
    }
    assert(v@ == s@);
    v
}

/// A `String` holding exactly the characters of `v` (std's `FromIterator<&char>`
/// for `String`; its documentation: the characters are appended in order).
#[verifier::external_body]
pub(crate) fn string_of(v: &[char]) -> (s: String)
    ensures
        s@ == v@,
{
    v.iter().collect::<String>()
}


/// `char::is_whitespace`: the Unicode `White_Space` property.
pub open spec fn is_ws(c: char) -> bool {
    ||| ('\t' <= c && c <= '\r')
    ||| c == ' '
    ||| c == '\u{85}'
    ||| c == '\u{a0}'
    ||| c == '\u{1680}'
    ||| ('\u{2000}' <= c && c <= '\u{200a}')
    ||| c == '\u{2028}'
    ||| c == '\u{2029}'
    ||| c == '\u{202f}'
    ||| c == '\u{205f}'
    ||| c == '\u{3000}'
}

/// `char::is_whitespace`.
pub fn is_ws_char(c: char) -> (b: bool)
    ensures
        b == is_ws(c),
{
    ('\t' <= c && c <= '\r') || c == ' ' || c == '\u{85}' || c == '\u{a0}' || c == '\u{1680}'
        || ('\u{2000}' <= c && c <= '\u{200a}') || c == '\u{2028}' || c == '\u{2029}'
        || c == '\u{202f}' || c == '\u{205f}' || c == '\u{3000}'
}


/// `str::trim_start`: the sequence without its leading white space.
pub open spec fn trim_start(s: Seq<char>) -> Seq<char>
    decreases s.len(),
{
    if s.len() > 0 && is_ws(s[0]) {
        trim_start(s.drop_first())
    } else {
        s
    }
}

/// `str::trim_end`: the sequence without its trailing white space.
pub open spec fn trim_end(s: Seq<char>) -> Seq<char>
    decreases s.len(),
{
    if s.len() > 0 && is_ws(s.last()) {
        trim_end(s.drop_last())
    } else {
        s
    }
}

/// `str::trim`: the sequence without leading and trailing white space.
pub open spec fn trim(s: Seq<char>) -> Seq<char> {
    trim_end(trim_start(s))
}

/// What `trim_end` leaves is a prefix that does not end in white space.
pub proof fn lemma_trim_end_prefix(x: Seq<char>)
    ensures
        trim_end(x).len() <= x.len(),
        trim_end(x) == x.subrange(0, trim_end(x).len() as int),
        trim_end(x).len() == 0 || !is_ws(trim_end(x).last()),
    decreases x.len(),
{
    if x.len() > 0 && is_ws(x.last()) {
        lemma_trim_end_prefix(x.drop_last());
        assert(x.drop_last().subrange(0, trim_end(x).len() as int) =~= x.subrange(
            0,
            trim_end(x).len() as int,
        ));
    } else {
        assert(x.subrange(0, x.len() as int) =~= x);
    }
}

/// What `trim_start` leaves does not start with white space.
pub proof fn lemma_trim_start_first(s: Seq<char>)
    ensures
        trim_start(s).len() == 0 || !is_ws(trim_start(s)[0]),
    decreases s.len(),
{
    if s.len() > 0 && is_ws(s[0]) {
        lemma_trim_start_first(s.drop_first());
    }
}

/// A trimmed sequence neither starts nor ends with white space.
pub proof fn lemma_trim_ends(s: Seq<char>)
    ensures
        trim(s).len() == 0 || (!is_ws(trim(s)[0]) && !is_ws(trim(s).last())),
{
    lemma_trim_start_first(s);
    lemma_trim_end_prefix(trim_start(s));
    if trim(s).len() > 0 {
        assert(trim(s)[0] == trim_start(s).subrange(0, trim(s).len() as int)[0]);
    }
}

/// A sequence that neither starts nor ends with white space is its own trim.
pub proof fn lemma_trim_of_trimmed(u: Seq<char>)
    requires
        u.len() == 0 || (!is_ws(u[0]) && !is_ws(u.last())),
    ensures
        trim(u) == u,
{
}

/// ASCII upper case keeps white space where it is and is idempotent.
pub proof fn lemma_ascii_upper_keeps_ws(s: Seq<char>)
    ensures
        ascii_upper(s).len() == s.len(),
        forall|i: int| 0 <= i < s.len() ==> (is_ws(#[trigger] ascii_upper(s)[i]) <==> is_ws(s[i])),
        ascii_upper(ascii_upper(s)) == ascii_upper(s),
{
    assert(ascii_upper(ascii_upper(s)) =~= ascii_upper(s));
}

/// A copy of `v[i..j]`.
pub fn subvec(v: &[char], i: usize, j: usize) -> (r: Vec<char>)
    requires
        i <= j <= v@.len(),
    ensures
        r@ == v@.subrange(i as int, j as int),
{
    let mut r: Vec<char> = Vec::new();
    let mut k = i;
    while k < j
        invariant
            i <= k <= j <= v@.len(),
            r@ == v@.subrange(i as int, k as int),
        decreases j - k,
    {
        r.push(v[k]);
        k = k + 1;
    }
    r
}

/// The bounds `(a, b)` with `v[a..b]` the trimmed sequence.
pub fn trim_bounds(v: &[char]) -> (r: (usize, usize))
    ensures
        r.0 <= r.1 <= v@.len(),
        v@.subrange(r.0 as int, r.1 as int) == trim(v@),
        trim_start(v@) == v@.subrange(r.0 as int, v@.len() as int),
{
    let n = v.len();
    let mut a: usize = 0;
    assert(v@.subrange(0, n as int) =~= v@);
    while a < n && is_ws_char(v[a])
        invariant
            a <= n == v@.len(),
            trim_start(v@) == trim_start(v@.subrange(a as int, n as int)),
        decreases n - a,
    {
        assert(v@.subrange(a as int, n as int).drop_first() =~= v@.subrange(a + 1, n as int));
        a = a + 1;
    }
    let mut b: usize = n;
    while b > a && is_ws_char(v[b - 1])
        invariant
            a <= b <= n == v@.len(),
            trim_start(v@) == v@.subrange(a as int, n as int),
            trim(v@) == trim_end(v@.subrange(a as int, b as int)),
        decreases b - a,
    {
        assert(v@.subrange(a as int, b as int).drop_last() =~= v@.subrange(a as int, b - 1));
        b = b - 1;
    }
    (a, b)
}

/// `str::trim` on characters.
pub fn trim_vec(v: &[char]) -> (r: Vec<char>)
    ensures
        r@ == trim(v@),
{
    let (a, b) = trim_bounds(v);
    subvec(v, a, b)
}

/// A copy of `v[i..j]` for bytes.
pub fn subvec_u8(v: &[u8], i: usize, j: usize) -> (r: Vec<u8>)
    requires
        i <= j <= v@.len(),
    ensures
        r@ == v@.subrange(i as int, j as int),
{
    let mut r: Vec<u8> = Vec::new();
    let mut k = i;
    while k < j
        invariant
            i <= k <= j <= v@.len(),
            r@ == v@.subrange(i as int, k as int),
        decreases j - k,
    {
        r.push(v[k]);
        k = k + 1;
    }
    r
}

/// Whether `p` occurs in `s` at position `i`.
pub open spec fn matches_at(s: Seq<char>, p: Seq<char>, i: int) -> bool {
    0 <= i && i + p.len() <= s.len() && s.subrange(i, i + p.len()) == p
}

/// The first position at or after `i` where `p` occurs in `s`.
pub open spec fn find_from(s: Seq<char>, p: Seq<char>, i: int) -> Option<int>
    decreases s.len() + 1 - i,
{
    if i < 0 || i + p.len() > s.len() {
        None
    } else if s.subrange(i, i + p.len()) == p {
        Some(i)
    } else {
        find_from(s, p, i + 1)
    }
}

/// `str::find` with a string pattern, counted in characters.
pub open spec fn find(s: Seq<char>, p: Seq<char>) -> Option<int> {
    find_from(s, p, 0)
}

/// `str::contains` with a string pattern.
pub open spec fn contains(s: Seq<char>, p: Seq<char>) -> bool {
    find(s, p) is Some
}

/// `str::starts_with` with a string pattern.
pub open spec fn starts_with(s: Seq<char>, p: Seq<char>) -> bool {
    p.len() <= s.len() && s.subrange(0, p.len() as int) == p
}

/// `str::ends_with` with a string pattern.
pub open spec fn ends_with(s: Seq<char>, p: Seq<char>) -> bool {
    p.len() <= s.len() && s.subrange(s.len() - p.len(), s.len() as int) == p
}

/// What `find_from` returns: a first occurrence, or none at all.
pub proof fn lemma_find_from(s: Seq<char>, p: Seq<char>, i: int)
    requires
        0 <= i,
    ensures
        find_from(s, p, i) matches Some(k) ==> i <= k && matches_at(s, p, k) && forall|j: int|
            i <= j < k ==> !matches_at(s, p, j),
        find_from(s, p, i) is None ==> forall|j: int| i <= j ==> !matches_at(s, p, j),
    decreases s.len() + 1 - i,
{
    if i + p.len() > s.len() {
    } else if s.subrange(i, i + p.len()) == p {
    } else {
        lemma_find_from(s, p, i + 1);
    }
}

/// Whether `p` occurs in `v` at position `i`.
pub fn matches_at_exec(v: &[char], p: &[char], i: usize) -> (b: bool)
    ensures
        b == matches_at(v@, p@, i as int),
{
    if i > v.len() || p.len() > v.len() - i {
        return false;
    }
    let mut k: usize = 0;
    while k < p.len()
        invariant
            i + p@.len() <= v@.len(),
            i + p.len() <= v.len(),
            k <= p@.len(),
            forall|m: int| 0 <= m < k ==> v@[i + m] == p@[m],
        decreases p.len() - k,
    {
        if v[i + k] != p[k] {
            assert(v@.subrange(i as int, i + p@.len())[k as int] != p@[k as int]);
            return false;
        }
        k = k + 1;
    }
    assert(v@.subrange(i as int, i + p@.len()) =~= p@);
    true
}

/// `find_from` on executable sequences.
pub fn find_from_exec(v: &[char], p: &[char], start: usize) -> (r: Option<usize>)
    ensures
        match r {
            Some(k) => find_from(v@, p@, start as int) == Some(k as int),
            None => find_from(v@, p@, start as int) is None,
        },
{
    let mut i = start;
    while i <= v.len() && p.len() <= v.len() - i
        invariant
            start <= i,
            find_from(v@, p@, start as int) == find_from(v@, p@, i as int),
        decreases v.len() + 1 - i,
    {
        if matches_at_exec(v, p, i) {
            return Some(i);
        }
        if i == v.len() {
            assert(v@.subrange(i as int, i + p@.len()) =~= p@);
            return None;
        }
        i = i + 1;
    }
    None
}

/// `str::find` on executable sequences.
pub fn find_exec(v: &[char], p: &[char]) -> (r: Option<usize>)
    ensures
        match r {
            Some(k) => find(v@, p@) == Some(k as int),
            None => find(v@, p@) is None,
        },
{
    find_from_exec(v, p, 0)
}

/// `str::contains` on executable sequences.
pub fn contains_exec(v: &[char], p: &[char]) -> (b: bool)
    ensures
        b == contains(v@, p@),
{
    find_exec(v, p).is_some()
}

/// `str::contains` for a literal pattern.
pub fn contains_str(v: &[char], p: &str) -> (b: bool)
    ensures
        b == contains(v@, p@),
{
    let pv = chars_of(p);
    contains_exec(v, pv.as_slice())
}

/// `str::starts_with` on executable sequences.
pub fn starts_with_exec(v: &[char], p: &[char]) -> (b: bool)
    ensures
        b == starts_with(v@, p@),
{
    matches_at_exec(v, p, 0)
}

/// `str::ends_with` on executable sequences.
pub fn ends_with_exec(v: &[char], p: &[char]) -> (b: bool)
    ensures
        b == ends_with(v@, p@),
{
    if p.len() > v.len() {
        false
    } else {
        matches_at_exec(v, p, v.len() - p.len())
    }
}

/// Equality of two executable sequences.
pub fn chars_eq(a: &[char], b: &[char]) -> (r: bool)
    ensures
        r == (a@ == b@),
{
    if a.len() != b.len() {
        return false;
    }
    let r = matches_at_exec(a, b, 0);
    assert(r ==> a@.subrange(0, b@.len() as int) =~= a@);
    assert(a@ == b@ ==> a@.subrange(0, b@.len() as int) =~= a@);
    r
}

/// Equality with a literal.
pub fn chars_eq_str(a: &[char], b: &str) -> (r: bool)
    ensures
        r == (a@ == b@),
{
    let bv = chars_of(b);
    chars_eq(a, bv.as_slice())
}


/// `char::to_ascii_uppercase`.
pub open spec fn upper_char(c: char) -> char {
    if 'a' <= c && c <= 'z' {
        ((c as u32) - 32) as char
    } else {
        c
    }
}

/// `char::to_ascii_lowercase`.
pub open spec fn lower_char(c: char) -> char {
    if 'A' <= c && c <= 'Z' {
        ((c as u32) + 32) as char
    } else {
        c
    }
}

/// `str::to_ascii_uppercase`.
pub open spec fn ascii_upper(s: Seq<char>) -> Seq<char> {
    Seq::new(s.len(), |i: int| upper_char(s[i]))
}

/// `str::to_ascii_lowercase`.
pub open spec fn ascii_lower(s: Seq<char>) -> Seq<char> {
    Seq::new(s.len(), |i: int| lower_char(s[i]))
}

/// `str::eq_ignore_ascii_case`.
pub open spec fn eq_ignore_case(a: Seq<char>, b: Seq<char>) -> bool {
    ascii_lower(a) == ascii_lower(b)
}

/// `char::to_ascii_uppercase`.
pub fn upper_char_exec(c: char) -> (r: char)
    ensures
        r == upper_char(c),
{
    if 'a' <= c && c <= 'z' {
        let u = c as u32;
        let b = c as u8;
        assert(u == c as u32);
        assert(b == u as u8);
        assert(65 <= u <= 122);
        assert((u as u8) as u32 == u) by (bit_vector)
            requires
                65 <= u <= 122,
        ;
        (b - 32) as char
    } else {
        c
    }
}

/// `char::to_ascii_lowercase`.
pub fn lower_char_exec(c: char) -> (r: char)
    ensures
        r == lower_char(c),
{
    if 'A' <= c && c <= 'Z' {
        let u = c as u32;
        let b = c as u8;
        assert(u == c as u32);
        assert(b == u as u8);
        assert(65 <= u <= 122);
        assert((u as u8) as u32 == u) by (bit_vector)
            requires
                65 <= u <= 122,
        ;
        (b + 32) as char
    } else {
        c
    }
}

/// `str::to_ascii_uppercase` on characters.
pub fn ascii_upper_vec(v: &[char]) -> (r: Vec<char>)
    ensures
        r@ == ascii_upper(v@),
{
    let mut r: Vec<char> = Vec::new();
    let mut i: usize = 0;
    while i < v.len()
        invariant
            i <= v@.len(),
            r@ =~= ascii_upper(v@.subrange(0, i as int)),
        decreases v.len() - i,
    {
        r.push(upper_char_exec(v[i]));
        i = i + 1;
    }
    assert(v@.subrange(0, i as int) =~= v@);
    r
}

/// `str::to_ascii_lowercase` on characters.
pub fn ascii_lower_vec(v: &[char]) -> (r: Vec<char>)
    ensures
        r@ == ascii_lower(v@),
{
    let mut r: Vec<char> = Vec::new();
    let mut i: usize = 0;
    while i < v.len()
        invariant
            i <= v@.len(),
            r@ =~= ascii_lower(v@.subrange(0, i as int)),
        decreases v.len() - i,
    {
        r.push(lower_char_exec(v[i]));
        i = i + 1;
    }
    assert(v@.subrange(0, i as int) =~= v@);
    r
}

/// `str::eq_ignore_ascii_case` on characters.
pub fn eq_ignore_case_exec(a: &[char], b: &[char]) -> (r: bool)
    ensures
        r == eq_ignore_case(a@, b@),
{
    let la = ascii_lower_vec(a);
    let lb = ascii_lower_vec(b);
    chars_eq(la.as_slice(), lb.as_slice())
}

/// `str::eq_ignore_ascii_case` against a literal.
pub fn eq_ignore_case_str(a: &[char], b: &str) -> (r: bool)
    ensures
        r == eq_ignore_case(a@, b@),
{
    let bv = chars_of(b);
    eq_ignore_case_exec(a, bv.as_slice())
}

/// The Unicode uppercase mapping of `str::to_uppercase`.
pub uninterp spec fn unicode_upper(s: Seq<char>) -> Seq<char>;

/// The Unicode lowercase mapping of `str::to_lowercase`.
pub uninterp spec fn unicode_lower(s: Seq<char>) -> Seq<char>;

/// Calls std's `str::to_uppercase` (Unicode case mapping); the result is named,
/// not described, since the mapping spans the Unicode tables.
#[verifier::external_body]
pub(crate) fn to_uppercase(v: &[char]) -> (r: Vec<char>)
    ensures
        r@ == unicode_upper(v@),
{
    v.iter().collect::<String>().to_uppercase().chars().collect()
}

/// Calls std's `str::to_lowercase` (Unicode case mapping); the result is named,
/// not described, since the mapping spans the Unicode tables.
#[verifier::external_body]
pub(crate) fn to_lowercase(v: &[char]) -> (r: Vec<char>)
    ensures
        r@ == unicode_lower(v@),
{
    v.iter().collect::<String>().to_lowercase().chars().collect()
}

/// `str::split(c)`: the pieces between occurrences of `c`; never empty.
pub open spec fn split_char(s: Seq<char>, c: char) -> Seq<Seq<char>>
    decreases s.len(),
{
    if s.len() == 0 {
        seq![Seq::<char>::empty()]
    } else {
        let r = split_char(s.drop_last(), c);
        if s.last() == c {
            r.push(Seq::<char>::empty())
        } else {
            r.update(r.len() - 1, r.last().push(s.last()))
        }
    }
}

/// Splitting always gives at least one piece.
pub proof fn lemma_split_char_len(s: Seq<char>, c: char)
    ensures
        split_char(s, c).len() >= 1,
    decreases s.len(),
{
    if s.len() > 0 {
        lemma_split_char_len(s.drop_last(), c);
    }
}

/// A line without the `\r` that precedes its `\n`.
pub open spec fn strip_cr(l: Seq<char>) -> Seq<char> {
    if l.len() > 0 && l.last() == '\r' {
        l.drop_last()
    } else {
        l
    }
}

/// `str::lines`: pieces ended by `\n` (a `\r` before it dropped), the last
/// piece kept only when it is not empty.
pub open spec fn lines(s: Seq<char>) -> Seq<Seq<char>> {
    let p = split_char(s, '\n');
    let ended = p.drop_last().map_values(|l: Seq<char>| strip_cr(l));
    if p.last().len() == 0 {
        ended
    } else {
        ended.push(p.last())
    }
}

/// Views of a vector of character vectors.
pub open spec fn views(v: Seq<Vec<char>>) -> Seq<Seq<char>> {
    v.map_values(|x: Vec<char>| x@)
}

/// `str::split(c)` on characters.
pub fn split_char_exec(v: &[char], c: char) -> (r: Vec<Vec<char>>)
    ensures
        views(r@) == split_char(v@, c),
{
    let mut done: Vec<Vec<char>> = Vec::new();
    let mut cur: Vec<char> = Vec::new();
    let mut i: usize = 0;
    assert(v@.subrange(0, 0) =~= Seq::<char>::empty());
    assert(views(done@).push(cur@) =~= split_char(v@.subrange(0, 0), c));
    while i < v.len()
        invariant
            i <= v@.len(),
            views(done@).push(cur@) == split_char(v@.subrange(0, i as int), c),
        decreases v.len() - i,
    {
        let ghost pre = v@.subrange(0, i as int);
        let ghost nxt = v@.subrange(0, i + 1);
        assert(nxt.drop_last() =~= pre);
        assert(nxt.last() == v@[i as int]);
        if v[i] == c {
            let piece = cur;
            done.push(piece);
            cur = Vec::new();
            assert(views(done@).push(cur@) =~= split_char(pre, c).push(Seq::<char>::empty()));
        } else {
            cur.push(v[i]);
            assert(views(done@).push(cur@) =~= split_char(pre, c).update(
                split_char(pre, c).len() - 1,
                split_char(pre, c).last().push(v@[i as int]),
            ));
        }
        i = i + 1;
    }
    assert(v@.subrange(0, i as int) =~= v@);
    done.push(cur);
    assert(views(done@) =~= split_char(v@, c));
    done
}

/// `strip_cr` on characters.
pub fn strip_cr_exec(l: &[char]) -> (r: Vec<char>)
    ensures
        r@ == strip_cr(l@),
{
    if l.len() > 0 && l[l.len() - 1] == '\r' {
        subvec(l, 0, l.len() - 1)
    } else {
        subvec(l, 0, l.len())
    }
}

/// `str::lines` on characters.
pub fn lines_exec(v: &[char]) -> (r: Vec<Vec<char>>)
    ensures
        views(r@) == lines(v@),
{
    let parts = split_char_exec(v, '\n');
    proof {
        lemma_split_char_len(v@, '\n');
    }
    let ghost p = split_char(v@, '\n');
    let n = parts.len();
    let mut r: Vec<Vec<char>> = Vec::new();
    let mut i: usize = 0;
    while i + 1 < n
        invariant
            n == parts@.len() == p.len() >= 1,
            views(parts@) == p,
            i + 1 <= n,
            views(r@) =~= p.subrange(0, i as int).map_values(|l: Seq<char>| strip_cr(l)),
        decreases n - i,
    {
        assert(parts@[i as int]@ == p[i as int]);
        let line = strip_cr_exec(parts[i].as_slice());
        let ghost old_r = r@;
        r.push(line);
        assert(views(r@) =~= views(old_r).push(strip_cr(p[i as int])));
        assert(p.subrange(0, i + 1).map_values(|l: Seq<char>| strip_cr(l)) =~= p.subrange(
            0,
            i as int,
        ).map_values(|l: Seq<char>| strip_cr(l)).push(strip_cr(p[i as int])));
        i = i + 1;
    }
    assert(p.subrange(0, i as int) =~= p.drop_last());
    assert(parts@[n - 1]@ == p.last());
    if parts[n - 1].len() == 0 {
        r
    } else {
        let last = subvec(parts[n - 1].as_slice(), 0, parts[n - 1].len());
        let ghost old_r = r@;
        r.push(last);
        assert(parts@[n - 1]@.subrange(0, parts@[n - 1]@.len() as int) =~= p.last());
        assert(views(r@) =~= views(old_r).push(p.last()));
        r
    }
}


/// `dst` extended by the characters of `src`.
pub fn append(dst: &mut Vec<char>, src: &[char])
    ensures
        final(dst)@ == old(dst)@ + src@,
{
    let mut i: usize = 0;
    let ghost start = dst@;
    while i < src.len()
        invariant
            i <= src@.len(),
            dst@ == start + src@.subrange(0, i as int),
        decreases src.len() - i,
    {
        dst.push(src[i]);
        i = i + 1;
        assert(dst@ =~= start + src@.subrange(0, i as int));
    }
    assert(src@.subrange(0, i as int) =~= src@);
}

/// `dst` extended by the characters of a literal.
pub fn append_str(dst: &mut Vec<char>, src: &str)
    ensures
        final(dst)@ == old(dst)@ + src@,
{
    let v = chars_of(src);
    append(dst, v.as_slice());
}

/// Views of a vector of strings.
pub open spec fn string_views(v: Seq<String>) -> Seq<Seq<char>> {
    v.map_values(|x: String| x@)
}

/// The last position at or before `i` where `p` occurs in `s`.
pub open spec fn rfind_from(s: Seq<char>, p: Seq<char>, i: int) -> Option<int>
    decreases i + 1,
{
    if i < 0 {
        None
    } else if matches_at(s, p, i) {
        Some(i)
    } else {
        rfind_from(s, p, i - 1)
    }
}

/// `str::rfind` with a string pattern.
pub open spec fn rfind(s: Seq<char>, p: Seq<char>) -> Option<int> {
    rfind_from(s, p, s.len() - p.len())
}

/// `str::rfind` on characters.
pub fn rfind_exec(v: &[char], p: &[char]) -> (r: Option<usize>)
    ensures
        match r {
            Some(k) => rfind(v@, p@) == Some(k as int),
            None => rfind(v@, p@) is None,
        },
{
    if p.len() > v.len() {
        return None;
    }
    let mut i: usize = v.len() - p.len();
    loop
        invariant
            i <= v@.len() - p@.len(),
            rfind(v@, p@) == rfind_from(v@, p@, i as int),
        decreases i,
    {
        if matches_at_exec(v, p, i) {
            return Some(i);
        }
        if i == 0 {
            return None;
        }
        i = i - 1;
    }
}

/// A match `rfind` reports lies within the sequence.
pub proof fn lemma_rfind_bound(s: Seq<char>, p: Seq<char>)
    ensures
        rfind(s, p) matches Some(k) ==> matches_at(s, p, k),
{
    lemma_rfind_from_bound(s, p, s.len() - p.len());
}

proof fn lemma_rfind_from_bound(s: Seq<char>, p: Seq<char>, i: int)
    ensures
        rfind_from(s, p, i) matches Some(k) ==> matches_at(s, p, k) && k <= i,
    decreases i + 1,
{
    if i >= 0 && !matches_at(s, p, i) {
        lemma_rfind_from_bound(s, p, i - 1);
    }
}

/// The match `rfind` reports is the last one: no match starts after it.
pub proof fn lemma_rfind_last(s: Seq<char>, p: Seq<char>)
    ensures
        rfind(s, p) matches Some(k) ==> forall|j: int| k < j ==> !matches_at(s, p, j),
        rfind(s, p) is None ==> forall|j: int| !matches_at(s, p, j),
{
    lemma_rfind_from_last(s, p, s.len() - p.len());
}

proof fn lemma_rfind_from_last(s: Seq<char>, p: Seq<char>, i: int)
    requires
        forall|j: int| i < j ==> !matches_at(s, p, j),
    ensures
        rfind_from(s, p, i) matches Some(k) ==> forall|j: int| k < j ==> !matches_at(s, p, j),
        rfind_from(s, p, i) is None ==> forall|j: int| !matches_at(s, p, j),
    decreases i + 1,
{
    if i >= 0 && !matches_at(s, p, i) {
        assert forall|j: int| i - 1 < j implies !matches_at(s, p, j) by {
            if j > i {
            }
        }
        lemma_rfind_from_last(s, p, i - 1);
    } else if i < 0 {
        assert forall|j: int| !matches_at(s, p, j) by {
            if j > i {
            }
        }
    }
}

/// `str::split_once(c)`.
pub open spec fn split_once(s: Seq<char>, c: char) -> Option<(Seq<char>, Seq<char>)> {
    match find(s, seq![c]) {
        Some(i) => Some((s.subrange(0, i), s.subrange(i + 1, s.len() as int))),
        None => None,
    }
}

/// `str::split_once(c)` on characters.
pub fn split_once_exec(v: &[char], c: char) -> (r: Option<(Vec<char>, Vec<char>)>)
    ensures
        match r {
            Some((a, b)) => split_once(v@, c) == Some((a@, b@)),
            None => split_once(v@, c) is None,
        },
{
    let pat = vec![c];
    assert(pat@ =~= seq![c]);
    match find_exec(v, pat.as_slice()) {
        Some(i) => {
            proof {
                lemma_find_from(v@, seq![c], 0);
                assert(matches_at(v@, seq![c], i as int));
            }
            assert(i + 1 <= v.len());
            let a = subvec(v, 0, i);
            let b = subvec(v, i + 1, v.len());
            Some((a, b))
        },
        None => None,
    }
}

/// `str::trim_start_matches(c)`.
pub open spec fn trim_start_char(s: Seq<char>, c: char) -> Seq<char>
    decreases s.len(),
{
    if s.len() > 0 && s[0] == c {
        trim_start_char(s.drop_first(), c)
    } else {
        s
    }
}

/// `str::trim_end_matches(c)`.
pub open spec fn trim_end_char(s: Seq<char>, c: char) -> Seq<char>
    decreases s.len(),
{
    if s.len() > 0 && s.last() == c {
        trim_end_char(s.drop_last(), c)
    } else {
        s
    }
}

/// `str::trim_matches(c)`.
pub open spec fn trim_char(s: Seq<char>, c: char) -> Seq<char> {
    trim_end_char(trim_start_char(s, c), c)
}

/// `str::trim_start_matches(c)` on characters.
pub fn trim_start_char_exec(v: &[char], c: char) -> (r: Vec<char>)
    ensures
        r@ == trim_start_char(v@, c),
{
    let n = v.len();
    let mut a: usize = 0;
    assert(v@.subrange(0, n as int) =~= v@);
    while a < n && v[a] == c
        invariant
            a <= n == v@.len(),
            trim_start_char(v@, c) == trim_start_char(v@.subrange(a as int, n as int), c),
        decreases n - a,
    {
        assert(v@.subrange(a as int, n as int).drop_first() =~= v@.subrange(a + 1, n as int));
        a = a + 1;
    }
    subvec(v, a, n)
}

/// `str::trim_end_matches(c)` on characters.
pub fn trim_end_char_exec(v: &[char], c: char) -> (r: Vec<char>)
    ensures
        r@ == trim_end_char(v@, c),
{
    let mut b: usize = v.len();
    assert(v@.subrange(0, b as int) =~= v@);
    while b > 0 && v[b - 1] == c
        invariant
            b <= v@.len(),
            trim_end_char(v@, c) == trim_end_char(v@.subrange(0, b as int), c),
        decreases b,
    {
        assert(v@.subrange(0, b as int).drop_last() =~= v@.subrange(0, b - 1));
        b = b - 1;
    }
    subvec(v, 0, b)
}

/// `str::trim_matches(c)` on characters.
pub fn trim_char_exec(v: &[char], c: char) -> (r: Vec<char>)
    ensures
        r@ == trim_char(v@, c),
{
    let a = trim_start_char_exec(v, c);
    trim_end_char_exec(a.as_slice(), c)
}

/// `char::is_ascii_digit`.
pub open spec fn is_digit(c: char) -> bool {
    '0' <= c && c <= '9'
}

/// `char::is_ascii_uppercase`.
pub open spec fn is_upper(c: char) -> bool {
    'A' <= c && c <= 'Z'
}

/// Value of a digit character.
pub open spec fn digit_value(c: char) -> nat {
    (c as nat - '0' as nat) as nat
}

/// Value of a sequence of decimal digits.
pub open spec fn digits_value(d: Seq<char>) -> nat
    decreases d.len(),
{
    if d.len() == 0 {
        0
    } else {
        digits_value(d.drop_last()) * 10 + digit_value(d.last())
    }
}

/// Whether every character is a decimal digit.
pub open spec fn all_digits(d: Seq<char>) -> bool {
    forall|i: int| 0 <= i < d.len() ==> is_digit(d[i])
}

/// `str::parse` for an unsigned integer type whose largest value is `max`:
/// an optional `+`, then one or more decimal digits, with a value up to `max`.
pub open spec fn parse_uint(s: Seq<char>, max: nat) -> Option<nat> {
    let d = if s.len() > 0 && s[0] == '+' {
        s.drop_first()
    } else {
        s
    };
    if d.len() > 0 && all_digits(d) && digits_value(d) <= max {
        Some(digits_value(d))
    } else {
        None
    }
}

proof fn lemma_digits_prefix_le(d: Seq<char>, i: int)
    requires
        0 <= i <= d.len(),
        all_digits(d),
    ensures
        digits_value(d.subrange(0, i)) <= digits_value(d),
    decreases d.len() - i,
{
    if i < d.len() {
        lemma_digits_prefix_le(d, i + 1);
        assert(d.subrange(0, i + 1).drop_last() =~= d.subrange(0, i));
    } else {
        assert(d.subrange(0, i) =~= d);
    }
}

/// `str::parse::<uN>` for `max` up to `u32::MAX`.
pub fn parse_uint_exec(v: &[char], max: u64) -> (r: Option<u64>)
    requires
        max <= u32::MAX,
    ensures
        match r {
            Some(n) => parse_uint(v@, max as nat) == Some(n as nat),
            None => parse_uint(v@, max as nat) is None,
        },
{
    let start: usize = if v.len() > 0 && v[0] == '+' {
        1
    } else {
        0
    };
    let ghost d = if v@.len() > 0 && v@[0] == '+' {
        v@.drop_first()
    } else {
        v@
    };
    assert(d =~= v@.subrange(start as int, v@.len() as int));
    if start >= v.len() {
        return None;
    }
    let mut value: u64 = 0;
    let mut i: usize = start;
    while i < v.len()
        invariant
            start <= i <= v@.len(),
            d == v@.subrange(start as int, v@.len() as int),
            d == (if v@.len() > 0 && v@[0] == '+' {
                v@.drop_first()
            } else {
                v@
            }),
            d.len() > 0,
            max <= u32::MAX,
            value <= max,
            forall|j: int| 0 <= j < i - start ==> is_digit(d[j]),
            value == digits_value(d.subrange(0, i - start)),
        decreases v.len() - i,
    {
        let c = v[i];
        assert(d[i - start] == c);
        if !('0' <= c && c <= '9') {
            assert(!is_digit(d[i - start]));
            assert(!all_digits(d));
            return None;
        }
        let dig = (c as u32 - '0' as u32) as u64;
        assert(d.subrange(0, i + 1 - start).drop_last() =~= d.subrange(0, i - start));
        assert(d.subrange(0, i + 1 - start).last() == c);
        assert(digit_value(c) == dig);
        assert(digits_value(d.subrange(0, i + 1 - start)) == value * 10 + dig);
        assert(value * 10 + dig <= u64::MAX) by (nonlinear_arith)
            requires
                value <= 0xffff_ffff,
                dig <= 9,
        ;
        let next = value * 10 + dig;
        if next > max {
            proof {
                if all_digits(d) {
                    lemma_digits_prefix_le(d, i + 1 - start);
                }
            }
            return None;
        }
        value = next;
        i = i + 1;
    }
    assert(d.subrange(0, i - start) =~= d);
    Some(value)
}

/// The decimal digit character for `n < 10`.
pub open spec fn digit_char(n: nat) -> char {
    (n + '0' as nat) as char
}

/// `ToString` for an unsigned integer: its decimal digits.
pub open spec fn dec(n: nat) -> Seq<char>
    decreases n,
{
    if n < 10 {
        seq![digit_char(n)]
    } else {
        dec(n / 10).push(digit_char(n % 10))
    }
}

/// Decimal digits of `n`.
pub fn dec_exec(n: u64) -> (r: Vec<char>)
    ensures
        r@ == dec(n as nat),
    decreases n,
{
    let d = (n % 10) as u32;
    let c = ((d as u8) + 48) as char;
    assert(c == digit_char((n % 10) as nat)) by {
        assert((d as u8) as int == d as int);
    }
    if n < 10 {
        vec![c]
    } else {
        let mut r = dec_exec(n / 10);
        r.push(c);
        r
    }
}


/// Calls std's `std::str::from_utf8`: it succeeds exactly on valid UTF-8, and
/// then holds the characters the bytes encode.
#[verifier::external_body]
pub(crate) fn utf8_decode(b: &[u8]) -> (r: Option<Vec<char>>)
    ensures
        r is Some <==> valid_utf8(b@),
        r matches Some(v) ==> v@ == decode_utf8(b@),
{
    match std::str::from_utf8(b) {
        Ok(s) => Some(s.chars().collect()),
        Err(_) => None,
    }
}

/// What `String::from_utf8_lossy` makes of a byte sequence.
pub uninterp spec fn utf8_lossy(b: Seq<u8>) -> Seq<char>;

/// Calls std's `String::from_utf8_lossy`. Its result is named; the one fact
/// stated is the documented one that valid UTF-8 is decoded as it is (what
/// replaces invalid sequences is left unsaid here).
#[verifier::external_body]
pub(crate) fn from_utf8_lossy(b: &[u8]) -> (r: Vec<char>)
    ensures
        r@ == utf8_lossy(b@),
        valid_utf8(b@) ==> r@ == decode_utf8(b@),
{
    String::from_utf8_lossy(b).chars().collect()
}

/// The number of leading characters that are not white space.
pub open spec fn word_len(t: Seq<char>) -> nat
    decreases t.len(),
{
    if t.len() > 0 && !is_ws(t[0]) {
        1 + word_len(t.drop_first())
    } else {
        0
    }
}

/// `str::split_whitespace().next()`.
pub open spec fn first_word(s: Seq<char>) -> Option<Seq<char>> {
    let t = trim_start(s);
    if t.len() == 0 {
        None
    } else {
        Some(t.subrange(0, word_len(t) as int))
    }
}

proof fn lemma_word_len(t: Seq<char>)
    ensures
        word_len(t) <= t.len(),
        forall|i: int| 0 <= i < word_len(t) ==> !is_ws(t[i]),
        word_len(t) < t.len() ==> is_ws(t[word_len(t) as int]),
    decreases t.len(),
{
    if t.len() > 0 && !is_ws(t[0]) {
        lemma_word_len(t.drop_first());
        assert forall|i: int| 0 <= i < word_len(t) implies !is_ws(t[i]) by {
            if i > 0 {
                assert(t[i] == t.drop_first()[i - 1]);
            }
        }
    }
}

/// `str::split_whitespace().next()` on characters.
pub fn first_word_exec(v: &[char]) -> (r: Option<Vec<char>>)
    ensures
        match r {
            Some(w) => first_word(v@) == Some(w@),
            None => first_word(v@) is None,
        },
{
    let (a, _b) = trim_bounds(v);
    let t = subvec(v, a, v.len());
    if t.len() == 0 {
        return None;
    }
    proof {
        lemma_word_len(t@);
    }
    let mut k: usize = 0;
    while k < t.len() && !is_ws_char(t[k])
        invariant
            k <= word_len(t@) <= t@.len(),
            forall|i: int| 0 <= i < word_len(t@) ==> !is_ws(t@[i]),
            word_len(t@) < t@.len() ==> is_ws(t@[word_len(t@) as int]),
        decreases t.len() - k,
    {
        k = k + 1;
    }
    Some(subvec(t.as_slice(), 0, k))
}

/// The pieces joined with `sep` between them (`[T]::join`).
pub open spec fn join(v: Seq<Seq<char>>, sep: Seq<char>) -> Seq<char>
    decreases v.len(),
{
    if v.len() == 0 {
        seq![]
    } else if v.len() == 1 {
        v[0]
    } else {
        join(v.drop_last(), sep) + sep + v.last()
    }
}

/// `join` on strings.
pub fn join_exec(v: &Vec<String>, sep: &str) -> (r: Vec<char>)
    ensures
        r@ == join(string_views(v@), sep@),
{
    let ghost vv = string_views(v@);
    let mut r: Vec<char> = Vec::new();
    let mut i: usize = 0;
    while i < v.len()
        invariant
            i <= v@.len(),
            vv == string_views(v@),
            r@ == join(vv.subrange(0, i as int), sep@),
        decreases v.len() - i,
    {
        let ghost pre = vv.subrange(0, i as int);
        let ghost nxt = vv.subrange(0, i + 1);
        assert(nxt.drop_last() =~= pre);
        if i > 0 {
            append_str(&mut r, sep);
        }
        let c = chars_of(v[i].as_str());
        append(&mut r, c.as_slice());
        if i == 0 {
            assert(r@ =~= nxt[0]);
        }
        i = i + 1;
    }
    assert(vv.subrange(0, i as int) =~= vv);
    r
}

/// `i32` as `{:?}` and `{}` print it.
pub open spec fn int_text(x: int) -> Seq<char> {
    if x < 0 {
        seq!['-'] + dec((-x) as nat)
    } else {
        dec(x as nat)
    }
}

/// The decimal text of an `i32`.
pub fn int_text_exec(x: i32) -> (r: Vec<char>)
    ensures
        r@ == int_text(x as int),
{
    if x < 0 {
        let m = (-(x as i64)) as u64;
        let mut r = vec!['-'];
        let d = dec_exec(m);
        append(&mut r, d.as_slice());
        r
    } else {
        dec_exec(x as u64)
    }
}

} // verus!
