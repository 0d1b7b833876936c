//! Firmware identification and the rules of firmware versions not to install.
use vstd::prelude::*;
use vstd::string::StringSliceAdditionalSpecFns;
use crate::model::{LpmError, RomRegion, BlockedFirmwareCheck};
use crate::text::{
    ascii_lower, ascii_lower_vec, ascii_upper, ascii_upper_vec, append, append_str, chars_eq, chars_of,
    contains, contains_exec, contains_str, dec, dec_exec, eq_ignore_case, eq_ignore_case_exec, eq_ignore_case_str,
    find, find_exec, find_from, find_from_exec, is_digit, is_upper, rfind, rfind_exec, lemma_rfind_bound, ends_with, ends_with_exec, lemma_find_from, lines, lines_exec, matches_at,
    split_char, split_char_exec, split_once, split_once_exec, starts_with, starts_with_exec,
    string_of, string_views, subvec, to_uppercase, trim, trim_char, trim_char_exec,
    trim_start_char, trim_start_char_exec, trim_vec, unicode_upper, views,
};

verus! {

/// Views of a vector of string slices.
pub open spec fn str_views(v: Seq<&'static str>) -> Seq<Seq<char>> {
    v.map_values(|x: &'static str| x@)
}

/// The view of an optional string.
pub open spec fn opt_view(o: Option<String>) -> Option<Seq<char>> {
    match o {
        Some(s) => Some(s@),
        None => None,
    }
}

/// The view of an optional string slice.
pub open spec fn opt_str_view(o: Option<&str>) -> Option<Seq<char>> {
    match o {
        Some(s) => Some(s@),
        None => None,
    }
}

/// The models the tool supports.
pub open spec fn supported_models() -> Seq<Seq<char>> {
    seq!["TB375FC"@, "TB373FU"@, "TB365FC"@, "TB361FU"@, "TB335FC"@, "TB336FU"@]
}

/// The models the tool supports.
pub fn supported_model_list() -> (r: Vec<&'static str>)
    ensures
        str_views(r@) == supported_models(),
{
    let r = vec!["TB375FC", "TB373FU", "TB365FC", "TB361FU", "TB335FC", "TB336FU"];
    assert(str_views(r@) =~= supported_models());
    r
}

/// Where the rules of versions not to install are published.
pub open spec fn rules_url() -> Seq<char> {
    "https://raw.githubusercontent.com/dwas-KR/LPMBox/refs/heads/Downloads/block_firmware.ini"@
}

/// The address of the rules of versions not to install.
pub fn block_firmware_rules_url() -> (r: &'static str)
    ensures
        r@ == rules_url(),
{
    "https://raw.githubusercontent.com/dwas-KR/LPMBox/refs/heads/Downloads/block_firmware.ini"
}

/// Where a comment starts in a rules line: at the first `//` or `#`.
pub open spec fn comment_cut(s: Seq<char>) -> int {
    match (find(s, seq!['/', '/']), find(s, seq!['#'])) {
        (Some(a), Some(b)) => if a <= b {
            a
        } else {
            b
        },
        (Some(a), None) => a,
        (None, Some(b)) => b,
        (None, None) => s.len() as int,
    }
}

/// A rules line without its comment.
pub open spec fn without_comment(s: Seq<char>) -> Seq<char> {
    s.subrange(0, comment_cut(s))
}

/// A rules line without its comment: everything before the first `//` or `#`.
pub fn strip_inline_comment(line: &[char]) -> (r: Vec<char>)
    ensures
        r@ == without_comment(line@),
{
    let sl = vec!['/', '/'];
    let hs = vec!['#'];
    assert(sl@ =~= seq!['/', '/']);
    assert(hs@ =~= seq!['#']);
    let slash = find_exec(line, sl.as_slice());
    let hash = find_exec(line, hs.as_slice());
    proof {
        lemma_find_from(line@, seq!['/', '/'], 0);
        lemma_find_from(line@, seq!['#'], 0);
    }
    let cut: usize = match (slash, hash) {
        (Some(a), Some(b)) => if a <= b {
            a
        } else {
            b
        },
        (Some(a), None) => a,
        (None, Some(b)) => b,
        (None, None) => line.len(),
    };
    subvec(line, 0, cut)
}

/// A version as versions are compared: trimmed, in ASCII upper case.
pub open spec fn normalized_version(v: Seq<char>) -> Seq<char> {
    ascii_upper(trim(v))
}

/// Normalizing a version twice gives what normalizing it once gives.
pub proof fn lemma_normalized_version_idempotent(v: Seq<char>)
    ensures
        normalized_version(normalized_version(v)) == normalized_version(v),
{
    let t = trim(v);
    let u = ascii_upper(t);
    crate::text::lemma_trim_ends(v);
    crate::text::lemma_ascii_upper_keeps_ws(t);
    if u.len() > 0 {
        assert(crate::text::is_ws(u[0]) <==> crate::text::is_ws(t[0]));
        assert(crate::text::is_ws(u.last()) <==> crate::text::is_ws(t.last()));
    }
    crate::text::lemma_trim_of_trimmed(u);
}

/// `version` trimmed and in ASCII upper case.
pub fn normalize_version(version: &[char]) -> (r: Vec<char>)
    ensures
        r@ == normalized_version(version@),
{
    let t = trim_vec(version);
    ascii_upper_vec(t.as_slice())
}

/// A rules line as it is read: leading byte-order marks, the comment and
/// surrounding white space removed.
pub open spec fn rule_line(raw: Seq<char>) -> Seq<char> {
    trim(without_comment(trim_start_char(raw, '\u{feff}')))
}

/// The two sides of a rule: split at the first `:`, else at the first `=`.
pub open spec fn rule_pair(line: Seq<char>) -> Option<(Seq<char>, Seq<char>)> {
    match split_once(line, ':') {
        Some(p) => Some(p),
        None => split_once(line, '='),
    }
}

/// A listed version: trimmed, then without surrounding `"`, then without
/// surrounding `'`.
pub open spec fn clean_value(v: Seq<char>) -> Seq<char> {
    trim_char(trim_char(trim(v), '"'), '\'')
}

/// The non-empty entries, in order.
pub open spec fn nonempty_only(vs: Seq<Seq<char>>) -> Seq<Seq<char>>
    decreases vs.len(),
{
    if vs.len() == 0 {
        seq![]
    } else {
        let r = nonempty_only(vs.drop_last());
        if vs.last().len() > 0 {
            r.push(vs.last())
        } else {
            r
        }
    }
}

/// The versions a rule's right side lists, separated by commas.
pub open spec fn rule_values(right: Seq<char>) -> Seq<Seq<char>> {
    nonempty_only(split_char(right, ',').map_values(|v: Seq<char>| clean_value(v)))
}

/// The versions a rules line lists for `model`, if the line is a rule for it.
pub open spec fn rule_for_model(raw: Seq<char>, model: Seq<char>) -> Option<Seq<Seq<char>>> {
    let line = rule_line(raw);
    if line.len() == 0 {
        None
    } else {
        match rule_pair(line) {
            None => None,
            Some((left, right)) => if eq_ignore_case(trim(left), model) {
                Some(rule_values(right))
            } else {
                None
            },
        }
    }
}

/// The versions of the first rule for `model` among `ls`.
pub open spec fn versions_in(ls: Seq<Seq<char>>, model: Seq<char>) -> Seq<Seq<char>>
    decreases ls.len(),
{
    if ls.len() == 0 {
        seq![]
    } else {
        match rule_for_model(ls[0], model) {
            Some(v) => v,
            None => versions_in(ls.drop_first(), model),
        }
    }
}

/// The versions of `model` not to install, from the first rule for it.
pub open spec fn blocked_versions_of(model: Seq<char>, text: Seq<char>) -> Seq<Seq<char>> {
    versions_in(lines(text), model)
}

/// The cleaned, non-empty comma-separated values of a rule.
fn rule_values_exec(right: &[char]) -> (r: Vec<String>)
    ensures
        string_views(r@) == rule_values(right@),
{
    let parts = split_char_exec(right, ',');
    let ghost mapped = split_char(right@, ',').map_values(|v: Seq<char>| clean_value(v));
    let mut out: Vec<String> = Vec::new();
    let mut i: usize = 0;
    while i < parts.len()
        invariant
            i <= parts@.len(),
            views(parts@) == split_char(right@, ','),
            mapped == split_char(right@, ',').map_values(|v: Seq<char>| clean_value(v)),
            string_views(out@) == nonempty_only(mapped.subrange(0, i as int)),
        decreases parts.len() - i,
    {
        assert(parts@[i as int]@ == split_char(right@, ',')[i as int]);
        let t = trim_vec(parts[i].as_slice());
        let t2 = trim_char_exec(t.as_slice(), '"');
        let t3 = trim_char_exec(t2.as_slice(), '\'');
        assert(mapped.subrange(0, i + 1).drop_last() =~= mapped.subrange(0, i as int));
        assert(mapped.subrange(0, i + 1).last() == t3@);
        if t3.len() > 0 {
            let ghost before = out@;
            out.push(string_of(t3.as_slice()));
            assert(string_views(out@) =~= string_views(before).push(t3@));
        }
        i = i + 1;
    }
    assert(mapped.subrange(0, i as int) =~= mapped);
    out
}

/// The versions a rules line lists for `model`, if it is a rule for it.
fn rule_for_model_exec(raw: &[char], model: &[char]) -> (r: Option<Vec<String>>)
    ensures
        match r {
            Some(v) => rule_for_model(raw@, model@) == Some(string_views(v@)),
            None => rule_for_model(raw@, model@) is None,
        },
{
    let a = trim_start_char_exec(raw, '\u{feff}');
    let b = strip_inline_comment(a.as_slice());
    let line = trim_vec(b.as_slice());
    if line.len() == 0 {
        return None;
    }
    let pair = match split_once_exec(line.as_slice(), ':') {
        Some(p) => Some(p),
        None => split_once_exec(line.as_slice(), '='),
    };
    match pair {
        None => None,
        Some((left, right)) => {
            let lt = trim_vec(left.as_slice());
            if eq_ignore_case_exec(lt.as_slice(), model) {
                Some(rule_values_exec(right.as_slice()))
            } else {
                None
            }
        },
    }
}

/// The versions of `model` that must not be installed, as the first rule for
/// the model lists them (`model: v1, v2` or `model = v1, v2`, the model name
/// compared ignoring ASCII case; comments start with `//` or `#`).
pub fn blocked_versions_for_model(model: &str, text: &str) -> (r: Vec<String>)
    ensures
        string_views(r@) == blocked_versions_of(model@, text@),
{
    let m = chars_of(model);
    let t = chars_of(text);
    blocked_versions_in(m.as_slice(), t.as_slice())
}

/// `blocked_versions_for_model` on characters.
fn blocked_versions_in(model: &[char], text: &[char]) -> (r: Vec<String>)
    ensures
        string_views(r@) == blocked_versions_of(model@, text@),
{
    let ls = lines_exec(text);
    let ghost all = lines(text@);
    let mut i: usize = 0;
    assert(all.subrange(0, all.len() as int) =~= all);
    while i < ls.len()
        invariant
            i <= ls@.len(),
            views(ls@) == all,
            all == lines(text@),
            versions_in(all, model@) == versions_in(all.subrange(i as int, all.len() as int), model@),
        decreases ls.len() - i,
    {
        let ghost rest = all.subrange(i as int, all.len() as int);
        assert(rest.len() > 0);
        assert(rest[0] == ls@[i as int]@);
        assert(rest.drop_first() =~= all.subrange(i + 1, all.len() as int));
        match rule_for_model_exec(ls[i].as_slice(), model) {
            Some(v) => {
                return v;
            },
            None => {},
        }
        i = i + 1;
    }
    Vec::new()
}

/// The first of `ms` that occurs in `s`.
pub open spec fn first_contained(s: Seq<char>, ms: Seq<Seq<char>>) -> Option<Seq<char>>
    decreases ms.len(),
{
    if ms.len() == 0 {
        None
    } else if contains(s, ms[0]) {
        Some(ms[0])
    } else {
        first_contained(s, ms.drop_first())
    }
}

/// The first supported model named in `upper_text`.
pub fn extract_model(upper_text: &str) -> (r: Option<String>)
    ensures
        opt_view(r) == first_contained(upper_text@, supported_models()),
{
    let t = chars_of(upper_text);
    let ms = supported_model_list();
    let mut i: usize = 0;
    assert(supported_models().subrange(0, 6) =~= supported_models());
    while i < ms.len()
        invariant
            i <= ms@.len(),
            t@ == upper_text@,
            str_views(ms@) == supported_models(),
            first_contained(upper_text@, supported_models()) == first_contained(
                upper_text@,
                supported_models().subrange(i as int, supported_models().len() as int),
            ),
        decreases ms.len() - i,
    {
        let ghost rest = supported_models().subrange(i as int, supported_models().len() as int);
        assert(rest.drop_first() =~= supported_models().subrange(i + 1, supported_models().len() as int));
        assert(rest[0] == ms@[i as int]@);
        if contains_str(t.as_slice(), ms[i]) {
            let mv = chars_of(ms[i]);
            return Some(string_of(mv.as_slice()));
        }
        i = i + 1;
    }
    None
}


/// The length of the leading run of digits and dots.
pub open spec fn number_run(t: Seq<char>) -> nat
    decreases t.len(),
{
    if t.len() > 0 && (is_digit(t[0]) || t[0] == '.') {
        1 + number_run(t.drop_first())
    } else {
        0
    }
}

/// Whether `s` holds a decimal digit.
pub open spec fn has_digit(s: Seq<char>) -> bool {
    exists|i: int| 0 <= i < s.len() && is_digit(s[i])
}

/// The leading run of digits and dots, when it holds a digit and a dot.
pub open spec fn version_number_part(t: Seq<char>) -> Option<Seq<char>> {
    let p = t.subrange(0, number_run(t) as int);
    if has_digit(p) && p.contains('.') {
        Some(p)
    } else {
        None
    }
}

proof fn lemma_number_run(t: Seq<char>)
    ensures
        number_run(t) <= t.len(),
        forall|i: int| 0 <= i < number_run(t) ==> (is_digit(t[i]) || t[i] == '.'),
        number_run(t) < t.len() ==> !(is_digit(t[number_run(t) as int]) || t[number_run(t) as int] == '.'),
    decreases t.len(),
{
    if t.len() > 0 && (is_digit(t[0]) || t[0] == '.') {
        lemma_number_run(t.drop_first());
        assert forall|i: int| 0 <= i < number_run(t) implies (is_digit(t[i]) || t[i] == '.') by {
            if i > 0 {
                assert(t[i] == t.drop_first()[i - 1]);
            }
        }
    }
}

/// The leading run of digits and dots of `text`, with its length, when it
/// holds at least one digit and one dot.
pub fn take_version_number_part(text: &[char]) -> (r: Option<(usize, Vec<char>)>)
    ensures
        match r {
            Some((n, p)) => version_number_part(text@) == Some(p@) && n == p@.len() && n
                == number_run(text@),
            None => version_number_part(text@) is None,
        },
{
    proof {
        lemma_number_run(text@);
    }
    let mut end: usize = 0;
    let mut seen_digit = false;
    let mut seen_dot = false;
    while end < text.len() && (('0' <= text[end] && text[end] <= '9') || text[end] == '.')
        invariant
            end <= number_run(text@) <= text@.len(),
            number_run(text@) <= text@.len(),
            forall|i: int| 0 <= i < number_run(text@) ==> (is_digit(text@[i]) || text@[i] == '.'),
            number_run(text@) < text@.len() ==> !(is_digit(text@[number_run(text@) as int])
                || text@[number_run(text@) as int] == '.'),
            seen_digit == has_digit(text@.subrange(0, end as int)),
            seen_dot == text@.subrange(0, end as int).contains('.'),
        decreases text.len() - end,
    {
        let ghost pre = text@.subrange(0, end as int);
        let ghost nxt = text@.subrange(0, end + 1);
        assert(nxt =~= pre.push(text@[end as int]));
        if '0' <= text[end] && text[end] <= '9' {
            seen_digit = true;
            assert(is_digit(nxt[end as int]));
        } else {
            assert(has_digit(nxt) ==> has_digit(pre)) by {
                if has_digit(nxt) {
                    let i = choose|i: int| 0 <= i < nxt.len() && is_digit(nxt[i]);
                    assert(i < end);
                    assert(pre[i] == nxt[i]);
                }
            }
        }
        if text[end] == '.' {
            seen_dot = true;
            assert(nxt[end as int] == '.');
        } else {
            assert(nxt.contains('.') ==> pre.contains('.')) by {
                if nxt.contains('.') {
                    let i = choose|i: int| 0 <= i < nxt.len() && nxt[i] == '.';
                    assert(i < end);
                    assert(pre[i] == nxt[i]);
                }
            }
        }
        assert(has_digit(pre) ==> has_digit(nxt)) by {
            if has_digit(pre) {
                let i = choose|i: int| 0 <= i < pre.len() && is_digit(pre[i]);
                assert(nxt[i] == pre[i]);
            }
        }
        assert(pre.contains('.') ==> nxt.contains('.')) by {
            if pre.contains('.') {
                let i = choose|i: int| 0 <= i < pre.len() && pre[i] == '.';
                assert(nxt[i] == pre[i]);
            }
        }
        end = end + 1;
    }
    assert(end == number_run(text@));
    if !seen_digit || !seen_dot || end == 0 {
        return None;
    }
    Some((end, subvec(text, 0, end)))
}

/// The leading run of ASCII upper-case letters.
pub open spec fn upper_run(t: Seq<char>) -> Seq<char>
    decreases t.len(),
{
    if t.len() > 0 && is_upper(t[0]) {
        seq![t[0]] + upper_run(t.drop_first())
    } else {
        seq![]
    }
}

/// The leading run of ASCII upper-case letters of `t`.
pub fn take_upper_run(t: &[char]) -> (r: Vec<char>)
    ensures
        r@ == upper_run(t@),
{
    let mut i: usize = 0;
    assert(t@.subrange(0, t@.len() as int) =~= t@);
    while i < t.len() && 'A' <= t[i] && t[i] <= 'Z'
        invariant
            i <= t@.len(),
            upper_run(t@) == t@.subrange(0, i as int) + upper_run(t@.subrange(i as int, t@.len() as int)),
        decreases t.len() - i,
    {
        let ghost rest = t@.subrange(i as int, t@.len() as int);
        assert(rest.drop_first() =~= t@.subrange(i + 1, t@.len() as int));
        assert(t@.subrange(0, i + 1) =~= t@.subrange(0, i as int) + seq![rest[0]]);
        i = i + 1;
    }
    assert(upper_run(t@.subrange(i as int, t@.len() as int)) =~= seq![]);
    subvec(t, 0, i)
}

/// The version that starts with the marker found at `i`: the marker, a
/// number with a digit and a dot, `_`, and a non-empty run of ASCII
/// upper-case letters.
pub open spec fn version_at(s: Seq<char>, m: Seq<char>, i: int) -> Option<Seq<char>> {
    let rest = s.subrange(i + m.len(), s.len() as int);
    match version_number_part(rest) {
        None => None,
        Some(num) => {
            let after = rest.subrange(num.len() as int, rest.len() as int);
            if after.len() > 0 && after[0] == '_' {
                let suffix = upper_run(after.drop_first());
                if suffix.len() > 0 {
                    Some(m + num + seq!['_'] + suffix)
                } else {
                    None
                }
            } else {
                None
            }
        },
    }
}

/// The first version after an occurrence of `m` at or after `i`; the search
/// goes on after the marker when an occurrence starts no version.
pub open spec fn search_marker(s: Seq<char>, m: Seq<char>, i: int) -> Option<Seq<char>>
    decreases s.len() + 1 - i,
{
    if i < 0 || m.len() == 0 {
        None
    } else {
        match find_from(s, m, i) {
            None => None,
            Some(st) => match version_at(s, m, st) {
                Some(v) => Some(v),
                None => {
                    proof {
                        lemma_find_from(s, m, i);
                    }
                    search_marker(s, m, st + m.len())
                },
            },
        }
    }
}

/// The firmware version named in an upper-case text: after `ZUXOS_` if any
/// occurrence starts one, else after `ZUI_`.
pub open spec fn version_in(s: Seq<char>) -> Option<Seq<char>> {
    match search_marker(s, "ZUXOS_"@, 0) {
        Some(v) => Some(v),
        None => search_marker(s, "ZUI_"@, 0),
    }
}

/// The version that starts with marker `m` at position `st`.
fn version_at_exec(s: &[char], m: &[char], st: usize) -> (r: Option<Vec<char>>)
    requires
        matches_at(s@, m@, st as int),
    ensures
        match r {
            Some(v) => version_at(s@, m@, st as int) == Some(v@),
            None => version_at(s@, m@, st as int) is None,
        },
{
    let n = s.len();
    assert(st + m@.len() <= n);
    let rest = subvec(s, st + m.len(), s.len());
    match take_version_number_part(rest.as_slice()) {
        None => None,
        Some((end, num)) => {
            proof {
                lemma_number_run(rest@);
            }
            let after = subvec(rest.as_slice(), end, rest.len());
            if after.len() > 0 && after[0] == '_' {
                let tail = subvec(after.as_slice(), 1, after.len());
                assert(tail@ =~= after@.drop_first());
                let suffix = take_upper_run(tail.as_slice());
                if suffix.len() > 0 {
                    let mut v: Vec<char> = Vec::new();
                    append(&mut v, m);
                    append(&mut v, num.as_slice());
                    v.push('_');
                    append(&mut v, suffix.as_slice());
                    assert(v@ =~= m@ + num@ + seq!['_'] + suffix@);
                    Some(v)
                } else {
                    None
                }
            } else {
                None
            }
        },
    }
}

/// The first version after an occurrence of `marker`.
fn search_marker_exec(s: &[char], marker: &str) -> (r: Option<Vec<char>>)
    ensures
        match r {
            Some(v) => search_marker(s@, marker@, 0) == Some(v@),
            None => search_marker(s@, marker@, 0) is None,
        },
{
    let m = chars_of(marker);
    if m.len() == 0 {
        return None;
    }
    let mut start: usize = 0;
    loop
        invariant
            m@ == marker@,
            m@.len() > 0,
            search_marker(s@, marker@, 0) == search_marker(s@, m@, start as int),
        decreases s@.len() + 1 - start,
    {
        match find_from_exec(s, m.as_slice(), start) {
            None => {
                return None;
            },
            Some(st) => {
                proof {
                    lemma_find_from(s@, m@, start as int);
                    assert(matches_at(s@, m@, st as int));
                }
                let n = s.len();
                assert(st + m@.len() <= n);
                match version_at_exec(s, m.as_slice(), st) {
                    Some(v) => {
                        return Some(v);
                    },
                    None => {
                        start = st + m.len();
                    },
                }
            },
        }
    }
}

/// The firmware version named in an upper-case text, such as
/// `ZUXOS_1.1.123_ABCD`: the first after `ZUXOS_`, else the first after `ZUI_`.
pub fn extract_version(upper_text: &str) -> (r: Option<String>)
    ensures
        opt_view(r) == version_in(upper_text@),
{
    let s = chars_of(upper_text);
    match search_marker_exec(s.as_slice(), "ZUXOS_") {
        Some(v) => Some(string_of(v.as_slice())),
        None => match search_marker_exec(s.as_slice(), "ZUI_") {
            Some(v) => Some(string_of(v.as_slice())),
            None => None,
        },
    }
}

/// Whether any of `ts` occurs in `s`.
pub open spec fn contains_any(s: Seq<char>, ts: Seq<Seq<char>>) -> bool {
    exists|i: int| 0 <= i < ts.len() && contains(s, ts[i])
}

/// Whether any of `ts` occurs in `s`.
pub fn contains_any_exec(s: &[char], ts: &Vec<&'static str>) -> (b: bool)
    ensures
        b == contains_any(s@, str_views(ts@)),
{
    let mut i: usize = 0;
    while i < ts.len()
        invariant
            i <= ts@.len(),
            forall|j: int| 0 <= j < i ==> !contains(s@, str_views(ts@)[j]),
        decreases ts.len() - i,
    {
        if contains_str(s, ts[i]) {
            assert(contains(s@, str_views(ts@)[i as int]));
            return true;
        }
        i = i + 1;
    }
    false
}

/// Markers of a ROM built for China.
pub open spec fn prc_region_tokens() -> Seq<Seq<char>> {
    seq![
        "PRC_OPEN"@,
        "RC_OPEN"@,
        "CN_OPEN"@,
        "N_OPEN"@,
        "PRC_OPEN_USER"@,
        "RC_OPEN_USER"@,
        "CN_OPEN_USER"@,
        "N_OPEN_USER"@,
    ]
}

/// Markers of a ROM built for the rest of the world.
pub open spec fn row_region_tokens() -> Seq<Seq<char>> {
    seq!["ROW_OPEN"@, "OW_OPEN"@, "ROW_OPEN_USER"@, "OW_OPEN_USER"@]
}

fn prc_region_token_list() -> (r: Vec<&'static str>)
    ensures
        str_views(r@) == prc_region_tokens(),
{
    let r = vec![
        "PRC_OPEN",
        "RC_OPEN",
        "CN_OPEN",
        "N_OPEN",
        "PRC_OPEN_USER",
        "RC_OPEN_USER",
        "CN_OPEN_USER",
        "N_OPEN_USER",
    ];
    assert(str_views(r@) =~= prc_region_tokens());
    r
}

fn row_region_token_list() -> (r: Vec<&'static str>)
    ensures
        str_views(r@) == row_region_tokens(),
{
    let r = vec!["ROW_OPEN", "OW_OPEN", "ROW_OPEN_USER", "OW_OPEN_USER"];
    assert(str_views(r@) =~= row_region_tokens());
    r
}

/// The region of a ROM: by its region markers when only one kind is present,
/// else China when the version (in Unicode upper case) starts with `ZUXOS_`,
/// else unknown.
pub open spec fn region_of(upper_text: Seq<char>, version: Option<Seq<char>>) -> RomRegion {
    let has_prc = contains_any(upper_text, prc_region_tokens());
    let has_row = contains_any(upper_text, row_region_tokens());
    if has_prc && !has_row {
        RomRegion::Prc
    } else if !has_prc && has_row {
        RomRegion::Row
    } else {
        match version {
            Some(v) => if starts_with(unicode_upper(v), "ZUXOS_"@) {
                RomRegion::Prc
            } else {
                RomRegion::Unknown
            },
            None => RomRegion::Unknown,
        }
    }
}

/// The region a ROM is built for, from its upper-case text and its version.
pub fn extract_region(upper_text: &str, version: Option<&str>) -> (r: RomRegion)
    ensures
        r == region_of(upper_text@, opt_str_view(version)),
{
    let s = chars_of(upper_text);
    let has_prc = contains_any_exec(s.as_slice(), &prc_region_token_list());
    let has_row = contains_any_exec(s.as_slice(), &row_region_token_list());
    if has_prc && !has_row {
        RomRegion::Prc
    } else if !has_prc && has_row {
        RomRegion::Row
    } else {
        match version {
            Some(v) => {
                let vc = chars_of(v);
                let up = to_uppercase(vc.as_slice());
                let marker = chars_of("ZUXOS_");
                if starts_with_exec(up.as_slice(), marker.as_slice()) {
                    RomRegion::Prc
                } else {
                    RomRegion::Unknown
                }
            },
            None => RomRegion::Unknown,
        }
    }
}


/// The first of `bs` whose normalized form is `current`.
pub open spec fn first_normalized_match(bs: Seq<Seq<char>>, current: Seq<char>) -> Option<Seq<char>>
    decreases bs.len(),
{
    if bs.len() == 0 {
        None
    } else if normalized_version(bs[0]) == current {
        Some(bs[0])
    } else {
        first_normalized_match(bs.drop_first(), current)
    }
}

/// The first match is a listed version that matches; there is one exactly
/// when some listed version matches.
proof fn lemma_first_normalized_match(bs: Seq<Seq<char>>, current: Seq<char>)
    ensures
        first_normalized_match(bs, current) is Some <==> exists|i: int|
            0 <= i < bs.len() && normalized_version(#[trigger] bs[i]) == current,
        first_normalized_match(bs, current) matches Some(m) ==> bs.contains(m) && normalized_version(m)
            == current,
    decreases bs.len(),
{
    if bs.len() > 0 {
        lemma_first_normalized_match(bs.drop_first(), current);
        if first_normalized_match(bs.drop_first(), current) is Some {
            let i = choose|i: int| 0 <= i < bs.drop_first().len() && normalized_version(
                #[trigger] bs.drop_first()[i],
            ) == current;
            assert(bs[i + 1] == bs.drop_first()[i]);
        }
        if exists|i: int| 0 <= i < bs.len() && normalized_version(#[trigger] bs[i]) == current {
            let i = choose|i: int| 0 <= i < bs.len() && normalized_version(#[trigger] bs[i]) == current;
            if i > 0 {
                assert(bs.drop_first()[i - 1] == bs[i]);
            }
        }
        if let Some(m) = first_normalized_match(bs.drop_first(), current) {
            let k = choose|k: int| 0 <= k < bs.drop_first().len() && bs.drop_first()[k] == m;
            assert(bs[k + 1] == m);
        }
    }
}

/// A firmware is blocked exactly when its version, trimmed and in upper case,
/// is that of a version the rules list for its model; the version reported
/// as matched is such a listed version.
pub proof fn lemma_blocked_exactly_when_listed(model: Seq<char>, version: Seq<char>, rules: Seq<char>)
    ensures
        ({
            let listed = blocked_versions_of(model, rules);
            let matched = matched_blocked_version(model, Some(version), Some(rules));
            &&& (matched is Some <==> exists|i: int|
                0 <= i < listed.len() && normalized_version(#[trigger] listed[i]) == normalized_version(
                    version,
                ))
            &&& (matched matches Some(m) ==> listed.contains(m) && normalized_version(m)
                == normalized_version(version))
        }),
{
    lemma_first_normalized_match(blocked_versions_of(model, rules), normalized_version(version));
}

/// The versions not to install that apply: those of the rules, or none when
/// the rules could not be had.
pub open spec fn applicable_blocked_versions(model: Seq<char>, rules: Option<Seq<char>>) -> Seq<Seq<char>> {
    match rules {
        Some(t) => blocked_versions_of(model, t),
        None => seq![],
    }
}

/// The listed version that the firmware's version matches, once both are
/// normalized.
pub open spec fn matched_blocked_version(
    model: Seq<char>,
    version: Option<Seq<char>>,
    rules: Option<Seq<char>>,
) -> Option<Seq<char>> {
    match version {
        None => None,
        Some(v) => first_normalized_match(
            applicable_blocked_versions(model, rules),
            normalized_version(v),
        ),
    }
}

/// The message that explains the outcome of the check.
pub open spec fn blocked_check_message(
    model: Seq<char>,
    version: Option<Seq<char>>,
    rules: Option<Seq<char>>,
) -> Seq<char> {
    let blocked = applicable_blocked_versions(model, rules);
    if rules is None {
        model + " 차단 펌웨어 규칙을 온라인에서 확인하지 못했습니다."@
    } else if matched_blocked_version(model, version, rules) is Some {
        model + seq![' '] + matched_blocked_version(model, version, rules)->0
            + " 버전은 설치 금지 목록에 포함되어 있습니다."@
    } else if blocked.len() == 0 {
        model + " 모델의 설치 금지 버전이 등록되어 있지 않습니다."@
    } else if version is Some {
        model + seq![' '] + version->0 + " 버전은 설치 금지 목록에 포함되어 있지 않습니다."@
    } else {
        model + " 설치 금지 버전 "@ + dec(blocked.len()) + "개가 있지만 현재 펌웨어 버전을 감지하지 못했습니다."@
    }
}

/// What the check of `model` at `version` against `rules` gives.
pub open spec fn blocked_check_is(
    r: BlockedFirmwareCheck,
    model: Seq<char>,
    version: Option<Seq<char>>,
    rules: Option<Seq<char>>,
) -> bool {
    &&& r.checked == rules is Some
    &&& string_views(r.blocked_versions@) == applicable_blocked_versions(model, rules)
    &&& opt_view(r.matched_version) == matched_blocked_version(model, version, rules)
    &&& r.blocked == r.matched_version is Some
    &&& r.source@ == rules_url()
    &&& r.model@ == model
    &&& opt_view(r.version) == version
    &&& r.message@ == blocked_check_message(model, version, rules)
}

/// The first of `bvs` whose normalized form is `current`.
fn first_matching_blocked(bvs: &Vec<String>, current: &[char]) -> (r: Option<String>)
    ensures
        opt_view(r) == first_normalized_match(string_views(bvs@), current@),
{
    let ghost bv = string_views(bvs@);
    let mut i: usize = 0;
    assert(bv.subrange(0, bv.len() as int) =~= bv);
    while i < bvs.len()
        invariant
            i <= bvs@.len(),
            bv == string_views(bvs@),
            first_normalized_match(bv, current@) == first_normalized_match(
                bv.subrange(i as int, bv.len() as int),
                current@,
            ),
        decreases bvs.len() - i,
    {
        let ghost rest = bv.subrange(i as int, bv.len() as int);
        assert(rest.drop_first() =~= bv.subrange(i + 1, bv.len() as int));
        assert(rest[0] == bvs@[i as int]@);
        let bc = chars_of(bvs[i].as_str());
        let nb = normalize_version(bc.as_slice());
        if chars_eq(nb.as_slice(), current) {
            return Some(string_of(bc.as_slice()));
        }
        i = i + 1;
    }
    None
}

/// Whether the firmware of `model` at `version` is on the list of versions
/// not to install that `rules` holds (`None`: the rules could not be had).
pub fn check_blocked_firmware(model: &str, version: Option<&str>, rules: Option<&str>) -> (r:
    BlockedFirmwareCheck)
    ensures
        blocked_check_is(r, model@, opt_str_view(version), opt_str_view(rules)),
{
    let blocked_versions: Vec<String> = match rules {
        Some(text) => blocked_versions_for_model(model, text),
        None => Vec::new(),
    };
    let ghost bv = applicable_blocked_versions(model@, opt_str_view(rules));
    assert(string_views(blocked_versions@) =~= bv);
    let matched_version: Option<String> = match version {
        Some(v) => {
            let vc = chars_of(v);
            let current = normalize_version(vc.as_slice());
            first_matching_blocked(&blocked_versions, current.as_slice())
        },
        None => None,
    };
    assert(opt_view(matched_version) == matched_blocked_version(
        model@,
        opt_str_view(version),
        opt_str_view(rules),
    ));
    let blocked = matched_version.is_some();
    let checked = rules.is_some();
    let mc = chars_of(model);
    let mut message: Vec<char> = Vec::new();
    append(&mut message, mc.as_slice());
    if !checked {
        append_str(&mut message, " 차단 펌웨어 규칙을 온라인에서 확인하지 못했습니다.");
    } else if matched_version.is_some() {
        message.push(' ');
        let mm = matched_version.as_ref().unwrap();
        let mmc = chars_of(mm.as_str());
        append(&mut message, mmc.as_slice());
        append_str(&mut message, " 버전은 설치 금지 목록에 포함되어 있습니다.");
    } else if blocked_versions.len() == 0 {
        append_str(&mut message, " 모델의 설치 금지 버전이 등록되어 있지 않습니다.");
    } else if version.is_some() {
        message.push(' ');
        let vc = chars_of(version.unwrap());
        append(&mut message, vc.as_slice());
        append_str(&mut message, " 버전은 설치 금지 목록에 포함되어 있지 않습니다.");
    } else {
        append_str(&mut message, " 설치 금지 버전 ");
        let n = dec_exec(blocked_versions.len() as u64);
        append(&mut message, n.as_slice());
        append_str(&mut message, "개가 있지만 현재 펌웨어 버전을 감지하지 못했습니다.");
    }
    let version_owned = match version {
        Some(v) => {
            let vc = chars_of(v);
            Some(string_of(vc.as_slice()))
        },
        None => None,
    };
    let url = chars_of(block_firmware_rules_url());
    let r = BlockedFirmwareCheck {
        checked,
        blocked,
        source: string_of(url.as_slice()),
        model: string_of(mc.as_slice()),
        version: version_owned,
        blocked_versions,
        matched_version,
        message: string_of(message.as_slice()),
    };
    assert(r.message@ == blocked_check_message(model@, opt_str_view(version), opt_str_view(rules)));
    assert(opt_view(r.version) == opt_str_view(version));
    r
}


/// Why a downloaded rules text is not taken, if it is not.
pub open spec fn rules_problem(text: Seq<char>) -> Option<Seq<char>> {
    let t = trim(text);
    let lower = ascii_lower(t);
    if t.len() == 0 {
        Some("차단 펌웨어 규칙 응답이 비어 있습니다."@)
    } else if starts_with(lower, "<!doctype"@) || starts_with(lower, "<html"@) || contains(
        lower,
        "<html"@,
    ) {
        Some("차단 펌웨어 규칙 대신 HTML 응답을 받았습니다."@)
    } else if !(exists|i: int|
        0 <= i < supported_models().len() && blocked_versions_of(supported_models()[i], t).len()
            > 0) {
        Some("차단 펌웨어 규칙에서 지원 모델 항목을 찾지 못했습니다."@)
    } else {
        None
    }
}

/// Whether a `Result` of the library is the error `FileNotFound` with
/// message `m`, or success when `m` is `None`.
pub open spec fn file_not_found_or_ok<T>(r: Result<T, LpmError>, m: Option<Seq<char>>) -> bool {
    match r {
        Ok(_) => m is None,
        Err(LpmError::FileNotFound(msg)) => m == Some(msg@),
        Err(_) => false,
    }
}

/// Checks a downloaded rules text: not empty, not an HTML page, and with a
/// rule that lists versions for at least one supported model.
pub fn validate_block_firmware_rules(text: &str) -> (r: Result<(), LpmError>)
    ensures
        file_not_found_or_ok(r, rules_problem(text@)),
{
    let tc = chars_of(text);
    let t = trim_vec(tc.as_slice());
    if t.len() == 0 {
        let m = chars_of("차단 펌웨어 규칙 응답이 비어 있습니다.");
        return Err(LpmError::FileNotFound(string_of(m.as_slice())));
    }
    let lower = ascii_lower_vec(t.as_slice());
    let p1 = chars_of("<!doctype");
    let p2 = chars_of("<html");
    if starts_with_exec(lower.as_slice(), p1.as_slice()) || starts_with_exec(
        lower.as_slice(),
        p2.as_slice(),
    ) || contains_exec(lower.as_slice(), p2.as_slice()) {
        let m = chars_of("차단 펌웨어 규칙 대신 HTML 응답을 받았습니다.");
        return Err(LpmError::FileNotFound(string_of(m.as_slice())));
    }
    let ms = supported_model_list();
    let mut i: usize = 0;
    while i < ms.len()
        invariant
            i <= ms@.len(),
            str_views(ms@) == supported_models(),
            t@ == trim(text@),
            t@.len() > 0,
            !(starts_with(ascii_lower(t@), "<!doctype"@) || starts_with(ascii_lower(t@), "<html"@)
                || contains(ascii_lower(t@), "<html"@)),
            forall|j: int|
                0 <= j < i ==> blocked_versions_of(supported_models()[j], t@).len() == 0,
        decreases ms.len() - i,
    {
        let mc = chars_of(ms[i]);
        assert(mc@ == supported_models()[i as int]);
        let found = blocked_versions_in(mc.as_slice(), t.as_slice());
        if found.len() > 0 {
            assert(blocked_versions_of(supported_models()[i as int], t@).len() > 0);
            return Ok(());
        }
        i = i + 1;
    }
    let m = chars_of("차단 펌웨어 규칙에서 지원 모델 항목을 찾지 못했습니다.");
    Err(LpmError::FileNotFound(string_of(m.as_slice())))
}

/// Takes a downloaded rules text: checks it and gives its length in bytes,
/// the size that a refresh reports.
pub fn refresh_block_firmware_rules(downloaded: &str) -> (r: Result<usize, LpmError>)
    ensures
        file_not_found_or_ok(r, rules_problem(downloaded@)),
        r matches Ok(n) ==> n == downloaded.spec_bytes().len() as usize,
{
    match validate_block_firmware_rules(downloaded) {
        Ok(()) => Ok(downloaded.len()),
        Err(e) => Err(e),
    }
}

/// The width of a character in UTF-8.
pub open spec fn char_width(c: char) -> nat {
    if (c as u32) < 0x80 {
        1
    } else if (c as u32) < 0x800 {
        2
    } else if (c as u32) < 0x10000 {
        3
    } else {
        4
    }
}

/// `str::len`: the length in UTF-8 bytes.
pub open spec fn utf8_len(s: Seq<char>) -> nat
    decreases s.len(),
{
    if s.len() == 0 {
        0
    } else {
        utf8_len(s.drop_last()) + char_width(s.last())
    }
}

proof fn lemma_utf8_len_prefix(s: Seq<char>, i: int)
    requires
        0 <= i <= s.len(),
    ensures
        utf8_len(s.subrange(0, i)) <= utf8_len(s),
    decreases s.len() - i,
{
    if i < s.len() {
        lemma_utf8_len_prefix(s, i + 1);
        assert(s.subrange(0, i + 1).drop_last() =~= s.subrange(0, i));
    } else {
        assert(s.subrange(0, i) =~= s);
    }
}

/// Whether `s` takes at least four bytes in UTF-8.
pub fn utf8_len_at_least_4(s: &[char]) -> (b: bool)
    ensures
        b == (utf8_len(s@) >= 4),
{
    let mut total: usize = 0;
    let mut i: usize = 0;
    while i < s.len()
        invariant
            i <= s@.len(),
            total == utf8_len(s@.subrange(0, i as int)),
            total < 4,
        decreases s.len() - i,
    {
        let c = s[i] as u32;
        let w: usize = if c < 0x80 {
            1
        } else if c < 0x800 {
            2
        } else if c < 0x10000 {
            3
        } else {
            4
        };
        assert(s@.subrange(0, i + 1).drop_last() =~= s@.subrange(0, i as int));
        total = total + w;
        i = i + 1;
        if total >= 4 {
            proof {
                lemma_utf8_len_prefix(s@, i as int);
            }
            return true;
        }
    }
    assert(s@.subrange(0, i as int) =~= s@);
    false
}

/// The platform named just before the first occurrence of `marker`: from the
/// last `MT` before it, when that takes at least four bytes.
pub open spec fn platform_before_marker(s: Seq<char>, marker: Seq<char>) -> Option<Seq<char>> {
    match find(s, marker) {
        None => None,
        Some(p) => {
            let before = s.subrange(0, p);
            match rfind(before, "MT"@) {
                None => None,
                Some(q) => {
                    let platform = before.subrange(q, before.len() as int);
                    if starts_with(platform, "MT"@) && utf8_len(platform) >= 4 {
                        Some(platform)
                    } else {
                        None
                    }
                },
            }
        },
    }
}

/// A platform found before a marker is the run of text that ends right where
/// the marker first occurs and starts at the last `MT` before it: it starts
/// with `MT`, holds no other `MT`, and is at least four bytes long.
pub proof fn lemma_platform_is_last_mt_run(s: Seq<char>, marker: Seq<char>)
    ensures
        platform_before_marker(s, marker) matches Some(p) ==> {
            &&& starts_with(p, "MT"@)
            &&& forall|j: int| 1 <= j ==> !#[trigger] matches_at(p, "MT"@, j)
            &&& exists|e: int| {
                &&& #[trigger] matches_at(s, marker, e)
                &&& forall|j: int| 0 <= j < e ==> !matches_at(s, marker, j)
                &&& p.len() <= e
                &&& s.subrange(e - p.len(), e) == p
            }
        },
{
    reveal_strlit("MT");
    lemma_find_from(s, marker, 0);
    if let Some(e) = find(s, marker) {
        let before = s.subrange(0, e);
        crate::text::lemma_rfind_bound(before, "MT"@);
        crate::text::lemma_rfind_last(before, "MT"@);
        if let Some(q) = rfind(before, "MT"@) {
            let p = before.subrange(q, before.len() as int);
            assert forall|j: int| 1 <= j implies !#[trigger] matches_at(p, "MT"@, j) by {
                if matches_at(p, "MT"@, j) {
                    assert(before.subrange(q + j, q + j + 2) =~= p.subrange(j, j + 2));
                    assert(matches_at(before, "MT"@, q + j));
                }
            }
            assert(s.subrange(e - p.len(), e) =~= p);
        }
    }
}

/// The platform named before `marker` in an upper-case text, such as
/// `MT6897` in `MT6897_ANDROID_SCATTER.XML`.
pub fn extract_platform_from_marker(upper_text: &str, marker: &str) -> (r: Option<String>)
    ensures
        opt_view(r) == platform_before_marker(upper_text@, marker@),
{
    let s = chars_of(upper_text);
    let m = chars_of(marker);
    platform_before_marker_exec(s.as_slice(), m.as_slice())
}

fn platform_before_marker_exec(s: &[char], m: &[char]) -> (r: Option<String>)
    ensures
        opt_view(r) == platform_before_marker(s@, m@),
{
    match find_exec(s, m) {
        None => None,
        Some(p) => {
            proof {
                lemma_find_from(s@, m@, 0);
            }
            let n = s.len();
            assert(p <= n);
            let before = subvec(s, 0, p);
            let mt = chars_of("MT");
            match rfind_exec(before.as_slice(), mt.as_slice()) {
                None => None,
                Some(q) => {
                    proof {
                        lemma_rfind_bound(before@, mt@);
                    }
                    let platform = subvec(before.as_slice(), q, before.len());
                    if starts_with_exec(platform.as_slice(), mt.as_slice()) && utf8_len_at_least_4(
                        platform.as_slice(),
                    ) {
                        Some(string_of(platform.as_slice()))
                    } else {
                        None
                    }
                },
            }
        },
    }
}

/// The platform a flash.xml names, from its Unicode upper-case text: before
/// `_ANDROID_SCATTER.XML`, else before `_ANDROID_SCATTER.X`.
pub open spec fn platform_of_flash_xml(xml: Seq<char>) -> Option<Seq<char>> {
    let upper = unicode_upper(xml);
    match platform_before_marker(upper, "_ANDROID_SCATTER.XML"@) {
        Some(p) => Some(p),
        None => platform_before_marker(upper, "_ANDROID_SCATTER.X"@),
    }
}

/// The platform a flash.xml text names.
pub fn platform_from_flash_xml_text(xml: &str) -> (r: Option<String>)
    ensures
        opt_view(r) == platform_of_flash_xml(xml@),
{
    let x = chars_of(xml);
    let upper = to_uppercase(x.as_slice());
    let m1 = chars_of("_ANDROID_SCATTER.XML");
    match platform_before_marker_exec(upper.as_slice(), m1.as_slice()) {
        Some(p) => Some(p),
        None => {
            let m2 = chars_of("_ANDROID_SCATTER.X");
            platform_before_marker_exec(upper.as_slice(), m2.as_slice())
        },
    }
}


/// The platform a scatter file's name names: the name in Unicode upper case
/// must end with `_ANDROID_SCATTER.X` or `_ANDROID_SCATTER.XML`; the platform
/// is what precedes the first `_ANDROID_SCATTER`, when it starts with `MT`
/// and takes at least four bytes.
pub open spec fn platform_of_scatter_name(name: Seq<char>) -> Option<Seq<char>> {
    let upper = unicode_upper(name);
    if !ends_with(upper, "_ANDROID_SCATTER.X"@) && !ends_with(upper, "_ANDROID_SCATTER.XML"@) {
        None
    } else {
        let platform = match find(upper, "_ANDROID_SCATTER"@) {
            Some(i) => upper.subrange(0, i),
            None => upper,
        };
        if starts_with(platform, "MT"@) && utf8_len(platform) >= 4 {
            Some(platform)
        } else {
            None
        }
    }
}

/// The platform a scatter file's name names.
pub fn platform_from_scatter_file_name(name: &str) -> (r: Option<String>)
    ensures
        opt_view(r) == platform_of_scatter_name(name@),
{
    let nc = chars_of(name);
    let upper = to_uppercase(nc.as_slice());
    let x = chars_of("_ANDROID_SCATTER.X");
    let xml = chars_of("_ANDROID_SCATTER.XML");
    if !ends_with_exec(upper.as_slice(), x.as_slice()) && !ends_with_exec(
        upper.as_slice(),
        xml.as_slice(),
    ) {
        return None;
    }
    let sep = chars_of("_ANDROID_SCATTER");
    let platform = match find_exec(upper.as_slice(), sep.as_slice()) {
        Some(i) => {
            proof {
                lemma_find_from(upper@, sep@, 0);
            }
            subvec(upper.as_slice(), 0, i)
        },
        None => subvec(upper.as_slice(), 0, upper.len()),
    };
    assert(upper@.subrange(0, upper@.len() as int) =~= upper@);
    let mt = chars_of("MT");
    if starts_with_exec(platform.as_slice(), mt.as_slice()) && utf8_len_at_least_4(
        platform.as_slice(),
    ) {
        Some(string_of(platform.as_slice()))
    } else {
        None
    }
}

/// Lexicographic order of character sequences (the order of `String`).
pub open spec fn lex_lt(a: Seq<char>, b: Seq<char>) -> bool
    decreases a.len(),
{
    if a.len() == 0 {
        b.len() > 0
    } else if b.len() == 0 {
        false
    } else if a[0] != b[0] {
        a[0] < b[0]
    } else {
        lex_lt(a.drop_first(), b.drop_first())
    }
}

/// `a < b` for strings.
pub fn lex_lt_exec(a: &[char], b: &[char]) -> (r: bool)
    ensures
        r == lex_lt(a@, b@),
{
    let mut i: usize = 0;
    assert(a@.subrange(0, a@.len() as int) =~= a@);
    assert(b@.subrange(0, b@.len() as int) =~= b@);
    while i < a.len() && i < b.len() && a[i] == b[i]
        invariant
            i <= a@.len(),
            i <= b@.len(),
            lex_lt(a@, b@) == lex_lt(
                a@.subrange(i as int, a@.len() as int),
                b@.subrange(i as int, b@.len() as int),
            ),
        decreases a.len() - i,
    {
        assert(a@.subrange(i as int, a@.len() as int).drop_first() =~= a@.subrange(
            i + 1,
            a@.len() as int,
        ));
        assert(b@.subrange(i as int, b@.len() as int).drop_first() =~= b@.subrange(
            i + 1,
            b@.len() as int,
        ));
        i = i + 1;
    }
    if i == a.len() {
        i < b.len()
    } else if i == b.len() {
        false
    } else {
        a[i] < b[i]
    }
}

/// The least of a non-empty list in the order of strings.
pub open spec fn least(v: Seq<Seq<char>>) -> Seq<char>
    decreases v.len(),
{
    if v.len() <= 1 {
        v[0]
    } else {
        let m = least(v.drop_last());
        if lex_lt(v.last(), m) {
            v.last()
        } else {
            m
        }
    }
}

/// The platforms the scatter file names in `names` name, in order.
pub open spec fn scatter_platforms(names: Seq<Seq<char>>) -> Seq<Seq<char>>
    decreases names.len(),
{
    if names.len() == 0 {
        seq![]
    } else {
        let r = scatter_platforms(names.drop_last());
        match platform_of_scatter_name(names.last()) {
            Some(p) => r.push(p),
            None => r,
        }
    }
}

/// The platform the scatter files of a folder name: the least, in the order
/// of strings, of those their names name.
pub open spec fn scatter_platform_choice(names: Seq<Seq<char>>) -> Option<Seq<char>> {
    let ps = scatter_platforms(names);
    if ps.len() == 0 {
        None
    } else {
        Some(least(ps))
    }
}

/// The platform the scatter files among `names` (the names of a folder's
/// files) name.
pub fn infer_platform_from_scatter_names(names: &Vec<String>) -> (r: Option<String>)
    ensures
        opt_view(r) == scatter_platform_choice(string_views(names@)),
{
    let ghost nv = string_views(names@);
    let mut best: Option<Vec<char>> = None;
    let mut i: usize = 0;
    while i < names.len()
        invariant
            i <= names@.len(),
            nv == string_views(names@),
            match best {
                None => scatter_platforms(nv.subrange(0, i as int)).len() == 0,
                Some(b) => scatter_platforms(nv.subrange(0, i as int)).len() > 0 && b@ == least(
                    scatter_platforms(nv.subrange(0, i as int)),
                ),
            },
        decreases names.len() - i,
    {
        let ghost pre = nv.subrange(0, i as int);
        let ghost nxt = nv.subrange(0, i + 1);
        assert(nxt.drop_last() =~= pre);
        assert(nxt.last() == names@[i as int]@);
        match platform_from_scatter_file_name(names[i].as_str()) {
            None => {},
            Some(p) => {
                let pc = chars_of(p.as_str());
                let ghost ps = scatter_platforms(pre);
                assert(scatter_platforms(nxt) == ps.push(pc@));
                assert(ps.push(pc@).drop_last() =~= ps);
                match best {
                    None => {
                        best = Some(pc);
                    },
                    Some(b) => {
                        if lex_lt_exec(pc.as_slice(), b.as_slice()) {
                            best = Some(pc);
                        } else {
                            best = Some(b);
                        }
                    },
                }
            },
        }
        i = i + 1;
    }
    assert(nv.subrange(0, i as int) =~= nv);
    match best {
        None => None,
        Some(b) => Some(string_of(b.as_slice())),
    }
}

/// Whether a file name, in Unicode upper case, ends with `suffix`.
pub open spec fn upper_name_ends_with(name: Seq<char>, suffix: Seq<char>) -> bool {
    ends_with(unicode_upper(name), suffix)
}

/// The kind of scatter file a name is: 1 for `.xml`, 2 for `.x`, 0 for none.
pub open spec fn scatter_kind(name: Seq<char>) -> int {
    if upper_name_ends_with(name, "_ANDROID_SCATTER.XML"@) {
        1
    } else if upper_name_ends_with(name, "_ANDROID_SCATTER.X"@) {
        2
    } else {
        0
    }
}

fn scatter_kind_exec(name: &str) -> (k: u8)
    ensures
        k as int == scatter_kind(name@),
{
    let nc = chars_of(name);
    let upper = to_uppercase(nc.as_slice());
    let xml = chars_of("_ANDROID_SCATTER.XML");
    let x = chars_of("_ANDROID_SCATTER.X");
    if ends_with_exec(upper.as_slice(), xml.as_slice()) {
        1
    } else if ends_with_exec(upper.as_slice(), x.as_slice()) {
        2
    } else {
        0
    }
}

/// Whether `i` is the position of a least name of kind `kind`.
pub open spec fn is_least_of_kind(names: Seq<Seq<char>>, kind: int, i: int) -> bool {
    &&& 0 <= i < names.len()
    &&& scatter_kind(names[i]) == kind
    &&& forall|j: int|
        0 <= j < names.len() && scatter_kind(names[j]) == kind ==> !lex_lt(names[j], names[i])
}

/// Whether some name is of kind `kind`.
pub open spec fn has_kind(names: Seq<Seq<char>>, kind: int) -> bool {
    exists|j: int| 0 <= j < names.len() && scatter_kind(names[j]) == kind
}

proof fn lemma_lex_lt_trans(a: Seq<char>, b: Seq<char>, c: Seq<char>)
    requires
        lex_lt(a, b),
        lex_lt(b, c),
    ensures
        lex_lt(a, c),
    decreases a.len(),
{
    if a.len() > 0 && b.len() > 0 && c.len() > 0 && a[0] == b[0] && b[0] == c[0] {
        lemma_lex_lt_trans(a.drop_first(), b.drop_first(), c.drop_first());
    }
}

proof fn lemma_lex_lt_irrefl(a: Seq<char>)
    ensures
        !lex_lt(a, a),
    decreases a.len(),
{
    if a.len() > 0 {
        lemma_lex_lt_irrefl(a.drop_first());
    }
}

/// The position, among the names of a folder's files, of the scatter file to
/// read when the platform's own is missing: the least `.xml` one, else the
/// least `.x` one.
pub fn find_any_scatter_source(names: &Vec<String>) -> (r: Option<usize>)
    ensures
        match r {
            Some(i) => if has_kind(string_views(names@), 1) {
                is_least_of_kind(string_views(names@), 1, i as int)
            } else {
                is_least_of_kind(string_views(names@), 2, i as int)
            },
            None => !has_kind(string_views(names@), 1) && !has_kind(string_views(names@), 2),
        },
{
    let ghost nv = string_views(names@);
    let mut best_xml: Option<usize> = None;
    let mut best_x: Option<usize> = None;
    let mut i: usize = 0;
    while i < names.len()
        invariant
            i <= names@.len(),
            nv == string_views(names@),
            match best_xml {
                None => forall|j: int| 0 <= j < i ==> scatter_kind(nv[j]) != 1,
                Some(b) => b < i && scatter_kind(nv[b as int]) == 1 && forall|j: int|
                    0 <= j < i && scatter_kind(nv[j]) == 1 ==> !lex_lt(nv[j], nv[b as int]),
            },
            match best_x {
                None => forall|j: int| 0 <= j < i ==> scatter_kind(nv[j]) != 2,
                Some(b) => b < i && scatter_kind(nv[b as int]) == 2 && forall|j: int|
                    0 <= j < i && scatter_kind(nv[j]) == 2 ==> !lex_lt(nv[j], nv[b as int]),
            },
        decreases names.len() - i,
    {
        assert(nv[i as int] == names@[i as int]@);
        let k = scatter_kind_exec(names[i].as_str());
        let nc = chars_of(names[i].as_str());
        if k == 1 {
            match best_xml {
                None => {
                    best_xml = Some(i);
                    proof {
                        lemma_lex_lt_irrefl(nv[i as int]);
                    }
                },
                Some(b) => {
                    let bc = chars_of(names[b].as_str());
                    if lex_lt_exec(nc.as_slice(), bc.as_slice()) {
                        best_xml = Some(i);
                        proof {
                            lemma_lex_lt_irrefl(nv[i as int]);
                            assert forall|j: int|
                                0 <= j < i + 1 && scatter_kind(nv[j]) == 1 implies !lex_lt(
                                nv[j],
                                nv[i as int],
                            ) by {
                                if j < i && lex_lt(nv[j], nv[i as int]) {
                                    lemma_lex_lt_trans(nv[j], nv[i as int], nv[b as int]);
                                }
                            }
                        }
                    }
                },
            }
        } else if k == 2 {
            match best_x {
                None => {
                    best_x = Some(i);
                    proof {
                        lemma_lex_lt_irrefl(nv[i as int]);
                    }
                },
                Some(b) => {
                    let bc = chars_of(names[b].as_str());
                    if lex_lt_exec(nc.as_slice(), bc.as_slice()) {
                        best_x = Some(i);
                        proof {
                            lemma_lex_lt_irrefl(nv[i as int]);
                            assert forall|j: int|
                                0 <= j < i + 1 && scatter_kind(nv[j]) == 2 implies !lex_lt(
                                nv[j],
                                nv[i as int],
                            ) by {
                                if j < i && lex_lt(nv[j], nv[i as int]) {
                                    lemma_lex_lt_trans(nv[j], nv[i as int], nv[b as int]);
                                }
                            }
                        }
                    }
                },
            }
        }
        i = i + 1;
    }
    match best_xml {
        Some(b) => Some(b),
        None => best_x,
    }
}


/// What the vendor_boot image of a firmware says of it.
#[derive(Debug, Clone)]
pub struct FirmwareIdentity {
    pub model: String,
    pub version: Option<String>,
    pub region: RomRegion,
    pub blocked_firmware_check: BlockedFirmwareCheck,
}

/// Identifies a firmware from the text of its vendor_boot image: the first
/// supported model it names (in Unicode upper case), its version and region,
/// and whether the version may be installed under `rules`.
pub fn identify_firmware(vendor_boot_text: &str, rules: Option<&str>) -> (r: Result<
    FirmwareIdentity,
    LpmError,
>)
    ensures
        ({
            let upper = unicode_upper(vendor_boot_text@);
            match r {
                Ok(id) => {
                    &&& first_contained(upper, supported_models()) == Some(id.model@)
                    &&& opt_view(id.version) == version_in(upper)
                    &&& id.region == region_of(upper, version_in(upper))
                    &&& blocked_check_is(
                        id.blocked_firmware_check,
                        id.model@,
                        version_in(upper),
                        opt_str_view(rules),
                    )
                },
                Err(LpmError::InvalidFirmwareFolder(m)) => first_contained(
                    upper,
                    supported_models(),
                ) is None && m@ == "vendor_boot-debug.img에서 지원 모델명을 찾지 못했습니다."@,
                Err(_) => false,
            }
        }),
{
    let tc = chars_of(vendor_boot_text);
    let upper_chars = to_uppercase(tc.as_slice());
    let upper = string_of(upper_chars.as_slice());
    let model = match extract_model(upper.as_str()) {
        Some(m) => m,
        None => {
            let m = chars_of("vendor_boot-debug.img에서 지원 모델명을 찾지 못했습니다.");
            return Err(LpmError::InvalidFirmwareFolder(string_of(m.as_slice())));
        },
    };
    let version = extract_version(upper.as_str());
    let region = match &version {
        Some(v) => extract_region(upper.as_str(), Some(v.as_str())),
        None => extract_region(upper.as_str(), None),
    };
    let check = match &version {
        Some(v) => check_blocked_firmware(model.as_str(), Some(v.as_str()), rules),
        None => check_blocked_firmware(model.as_str(), None, rules),
    };
    Ok(FirmwareIdentity { model, version, region, blocked_firmware_check: check })
}

/// The scatter file name of a platform, such as `MT6897_Android_scatter.xml`.
pub fn scatter_xml_file_name(platform: &str) -> (r: String)
    ensures
        r@ == platform@ + "_Android_scatter.xml"@,
{
    let mut v = chars_of(platform);
    append_str(&mut v, "_Android_scatter.xml");
    string_of(v.as_slice())
}

/// The encrypted scatter file name of a platform, such as
/// `MT6897_Android_scatter.x`.
pub fn scatter_x_file_name(platform: &str) -> (r: String)
    ensures
        r@ == platform@ + "_Android_scatter.x"@,
{
    let mut v = chars_of(platform);
    append_str(&mut v, "_Android_scatter.x");
    string_of(v.as_slice())
}

/// The error when a platform has no scatter file.
pub fn scatter_not_found_error(platform: &str) -> (r: LpmError)
    ensures
        r matches LpmError::FileNotFound(m) && m@ == platform@ + "_Android_scatter.xml 또는 "@
            + platform@ + "_Android_scatter.x"@,
{
    let p = chars_of(platform);
    let mut v = chars_of(platform);
    append_str(&mut v, "_Android_scatter.xml 또는 ");
    append(&mut v, p.as_slice());
    append_str(&mut v, "_Android_scatter.x");
    LpmError::FileNotFound(string_of(v.as_slice()))
}

/// How a scatter file is read.
#[derive(Debug, Clone, Copy, PartialEq, Eq, Structural)]
pub enum ScatterFormat {
    /// Plain XML.
    Xml,
    /// Encrypted XML that must be decrypted first.
    Encrypted,
}

/// How a scatter file found by `find_any_scatter_source` is read, by its
/// extension (ASCII case ignored): `xml` is plain, `x` is encrypted, any
/// other is refused with the file shown as `display`.
pub fn scatter_source_format(extension: Option<&str>, display: &str) -> (r: Result<
    ScatterFormat,
    LpmError,
>)
    ensures
        match r {
            Ok(ScatterFormat::Xml) => extension matches Some(e) && eq_ignore_case(e@, "xml"@),
            Ok(ScatterFormat::Encrypted) => extension matches Some(e) && !eq_ignore_case(
                e@,
                "xml"@,
            ) && eq_ignore_case(e@, "x"@),
            Err(LpmError::InvalidFirmwareFolder(m)) => !(extension matches Some(e) && (
            eq_ignore_case(e@, "xml"@) || eq_ignore_case(e@, "x"@))) && m@
                == "지원하지 않는 scatter 파일입니다: "@ + display@,
            Err(_) => false,
        },
{
    match extension {
        Some(e) => {
            let ec = chars_of(e);
            if eq_ignore_case_str(ec.as_slice(), "xml") {
                return Ok(ScatterFormat::Xml);
            }
            if eq_ignore_case_str(ec.as_slice(), "x") {
                return Ok(ScatterFormat::Encrypted);
            }
        },
        None => {},
    }
    let mut m = chars_of("지원하지 않는 scatter 파일입니다: ");
    append_str(&mut m, display);
    Err(LpmError::InvalidFirmwareFolder(string_of(m.as_slice())))
}

} // verus!
