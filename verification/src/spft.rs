//! Reading the output of SP Flash Tool V6, and the files and checks around
//! running it.
use vstd::prelude::*;
use crate::guard::opt_view;
use crate::model::{LpmError, ProinfoLiveEvent, SpftProgress};
use crate::text::{
    append, append_str, ascii_lower, ascii_lower_vec, chars_eq, chars_of, contains, contains_str,
    digits_value, eq_ignore_case, eq_ignore_case_str, find, find_exec, first_word, first_word_exec,
    is_digit, join, from_utf8_lossy, utf8_lossy, int_text, int_text_exec, join_exec, lemma_find_from, parse_uint, parse_uint_exec, split_once,
    split_once_exec, starts_with, string_of, string_views, subvec, trim, trim_end_char,
    trim_end_char_exec, trim_vec,
};

verus! {

/// Where the run of digits that ends just before `k` starts.
pub open spec fn digits_start(s: Seq<char>, k: int) -> int
    decreases k,
{
    if 0 < k <= s.len() && is_digit(s[k - 1]) {
        digits_start(s, k - 1)
    } else {
        k
    }
}

proof fn lemma_digits_start(s: Seq<char>, k: int)
    requires
        0 <= k <= s.len(),
    ensures
        0 <= digits_start(s, k) <= k,
        forall|i: int| digits_start(s, k) <= i < k ==> is_digit(s[i]),
    decreases k,
{
    if 0 < k && is_digit(s[k - 1]) {
        lemma_digits_start(s, k - 1);
    }
}

/// The percentage of a tool line from position `k` on: at the first `%`
/// that digits precede whose value is at most 100. A run of digits too long
/// for a `u16` ends the search with no percentage.
pub open spec fn percent_from(s: Seq<char>, k: int) -> Option<nat>
    decreases s.len() - k,
{
    if k < 0 || k >= s.len() {
        None
    } else if s[k] != '%' {
        percent_from(s, k + 1)
    } else {
        let st = digits_start(s, k);
        if st == k {
            percent_from(s, k + 1)
        } else {
            match parse_uint(s.subrange(st, k), 65535) {
                None => None,
                Some(v) => if v <= 100 {
                    Some(v)
                } else {
                    percent_from(s, k + 1)
                },
            }
        }
    }
}

/// The percentage a tool line reports, such as 45 in `Download 45%`.
pub fn extract_percent(line: &str) -> (r: Option<u8>)
    ensures
        match r {
            Some(p) => percent_from(line@, 0) == Some(p as nat),
            None => percent_from(line@, 0) is None,
        },
{
    let s = chars_of(line);
    extract_percent_chars(s.as_slice())
}

fn extract_percent_chars(s: &[char]) -> (r: Option<u8>)
    ensures
        match r {
            Some(p) => percent_from(s@, 0) == Some(p as nat),
            None => percent_from(s@, 0) is None,
        },
{
    let mut k: usize = 0;
    while k < s.len()
        invariant
            k <= s@.len(),
            percent_from(s@, 0) == percent_from(s@, k as int),
        decreases s.len() - k,
    {
        if s[k] == '%' {
            let mut start = k;
            while start > 0 && '0' <= s[start - 1] && s[start - 1] <= '9'
                invariant
                    start <= k < s@.len(),
                    digits_start(s@, k as int) == digits_start(s@, start as int),
                decreases start,
            {
                start = start - 1;
            }
            if start != k {
                proof {
                    lemma_digits_start(s@, k as int);
                }
                let digits = subvec(s, start, k);
                match parse_uint_exec(digits.as_slice(), 65535) {
                    None => {
                        return None;
                    },
                    Some(v) => {
                        if v <= 100 {
                            return Some(v as u8);
                        }
                    },
                }
            }
        }
        k = k + 1;
    }
    None
}

/// The partition a tool line names in brackets: the first word between the
/// first `[` and the `]` after it, followed by ` (n/m)` when an inner `[`
/// introduces a count with a `/`.
pub open spec fn partition_name_of(line: Seq<char>) -> Option<Seq<char>> {
    match find(line, seq!['[']) {
        None => None,
        Some(start) => {
            let rest = line.subrange(start + 1, line.len() as int);
            match find(rest, seq![']']) {
                None => None,
                Some(end) => {
                    let raw = trim(rest.subrange(0, end));
                    match first_word(raw) {
                        None => None,
                        Some(w) => {
                            let name = trim(w);
                            if name.len() == 0 {
                                None
                            } else {
                                match split_once(raw, '[') {
                                    Some((_, right)) => {
                                        let value = trim(trim_end_char(trim(right), ']'));
                                        if value.contains('/') {
                                            Some(name + " ("@ + value + ")"@)
                                        } else {
                                            Some(name)
                                        }
                                    },
                                    None => Some(name),
                                }
                            }
                        },
                    }
                },
            }
        },
    }
}

fn contains_char(v: &[char], c: char) -> (b: bool)
    ensures
        b == v@.contains(c),
{
    let mut i: usize = 0;
    while i < v.len()
        invariant
            i <= v@.len(),
            forall|j: int| 0 <= j < i ==> v@[j] != c,
        decreases v.len() - i,
    {
        if v[i] == c {
            return true;
        }
        i = i + 1;
    }
    false
}

/// The partition a tool line names in brackets.
pub fn extract_spft_partition_name(line: &str) -> (r: Option<String>)
    ensures
        opt_view(r) == partition_name_of(line@),
{
    let l = chars_of(line);
    let open = vec!['['];
    let close = vec![']'];
    assert(open@ =~= seq!['[']);
    assert(close@ =~= seq![']']);
    let start = match find_exec(l.as_slice(), open.as_slice()) {
        Some(s) => s,
        None => {
            return None;
        },
    };
    proof {
        lemma_find_from(l@, seq!['['], 0);
    }
    let n = l.len();
    assert(start < n);
    let rest = subvec(l.as_slice(), start + 1, n);
    let end = match find_exec(rest.as_slice(), close.as_slice()) {
        Some(e) => e,
        None => {
            return None;
        },
    };
    proof {
        lemma_find_from(rest@, seq![']'], 0);
    }
    let inner = subvec(rest.as_slice(), 0, end);
    let raw = trim_vec(inner.as_slice());
    let w = match first_word_exec(raw.as_slice()) {
        Some(w) => w,
        None => {
            return None;
        },
    };
    let name = trim_vec(w.as_slice());
    if name.len() == 0 {
        return None;
    }
    match split_once_exec(raw.as_slice(), '[') {
        Some((_, right)) => {
            let t1 = trim_vec(right.as_slice());
            let t2 = trim_end_char_exec(t1.as_slice(), ']');
            let value = trim_vec(t2.as_slice());
            if contains_char(value.as_slice(), '/') {
                let mut out = name;
                append_str(&mut out, " (");
                append(&mut out, value.as_slice());
                append_str(&mut out, ")");
                Some(string_of(out.as_slice()))
            } else {
                Some(string_of(name.as_slice()))
            }
        },
        None => Some(string_of(name.as_slice())),
    }
}

/// The stage a progress line belongs to.
pub open spec fn progress_stage(line: Seq<char>) -> Seq<char> {
    let lower = ascii_lower(line);
    if contains(lower, "da data has been sent"@) {
        "DA 설정"@
    } else if contains(lower, "data readback to pc"@) {
        "proinfo 백업"@
    } else if partition_name_of(line) is Some {
        partition_name_of(line)->0
    } else if contains(lower, "image data has been sent"@) {
        "image"@
    } else if contains(lower, "download"@) || contains(lower, "write"@) || contains(
        lower,
        "format"@,
    ) || contains(lower, "flash"@) {
        "플래싱"@
    } else {
        "작업 진행"@
    }
}

/// A line without brackets names no partition.
proof fn lemma_no_bracket_no_partition(line: Seq<char>)
    requires
        !line.contains('['),
    ensures
        partition_name_of(line) is None,
{
    lemma_find_from(line, seq!['['], 0);
    if let Some(k) = find(line, seq!['[']) {
        assert(line.subrange(k, k + 1)[0] == line[k]);
        assert(line[k] == '[');
    }
}

/// A progress line that names no partition in brackets and is not about DA
/// setup, the read-back or the image is counted as flashing when it speaks
/// (in any ASCII case) of a download, a write, a format or a flash.
pub proof fn lemma_download_line_is_flashing(line: Seq<char>)
    requires
        !line.contains('['),
        contains(ascii_lower(line), "download"@) || contains(ascii_lower(line), "write"@)
            || contains(ascii_lower(line), "format"@) || contains(ascii_lower(line), "flash"@),
        !contains(ascii_lower(line), "da data has been sent"@),
        !contains(ascii_lower(line), "data readback to pc"@),
        !contains(ascii_lower(line), "image data has been sent"@),
    ensures
        progress_stage(line) == "플래싱"@,
{
    lemma_no_bracket_no_partition(line);
}

/// The stage markers that come first: a line about DA data being sent is DA
/// setup, else one about data read back to the PC is the `proinfo` backup,
/// else (naming no partition in brackets) one about image data is `image`.
pub proof fn lemma_marked_line_stages(line: Seq<char>)
    ensures
        contains(ascii_lower(line), "da data has been sent"@) ==> progress_stage(line) == "DA 설정"@,
        !contains(ascii_lower(line), "da data has been sent"@) && contains(
            ascii_lower(line),
            "data readback to pc"@,
        ) ==> progress_stage(line) == "proinfo 백업"@,
        !line.contains('[') && !contains(ascii_lower(line), "da data has been sent"@) && !contains(
            ascii_lower(line),
            "data readback to pc"@,
        ) && contains(ascii_lower(line), "image data has been sent"@) ==> progress_stage(line)
            == "image"@,
{
    if !line.contains('[') {
        lemma_no_bracket_no_partition(line);
    }
}

/// A progress line that names none of the known stages is counted as work in
/// progress.
pub proof fn lemma_unknown_line_is_work(line: Seq<char>)
    requires
        !line.contains('['),
        !contains(ascii_lower(line), "download"@),
        !contains(ascii_lower(line), "write"@),
        !contains(ascii_lower(line), "format"@),
        !contains(ascii_lower(line), "flash"@),
        !contains(ascii_lower(line), "da data has been sent"@),
        !contains(ascii_lower(line), "data readback to pc"@),
        !contains(ascii_lower(line), "image data has been sent"@),
    ensures
        progress_stage(line) == "작업 진행"@,
{
    lemma_no_bracket_no_partition(line);
}

/// The progress a tool line reports: its percentage and its stage.
pub fn parse_spflashtoolv6_progress(line: &str) -> (r: Option<SpftProgress>)
    ensures
        match r {
            Some(p) => percent_from(line@, 0) == Some(p.percent as nat) && p.stage@
                == progress_stage(line@),
            None => percent_from(line@, 0) is None,
        },
{
    let percent = match extract_percent(line) {
        Some(p) => p,
        None => {
            return None;
        },
    };
    let l = chars_of(line);
    let lower = ascii_lower_vec(l.as_slice());
    let stage: Vec<char> = if contains_str(lower.as_slice(), "da data has been sent") {
        chars_of("DA 설정")
    } else if contains_str(lower.as_slice(), "data readback to pc") {
        chars_of("proinfo 백업")
    } else {
        match extract_spft_partition_name(line) {
            Some(p) => chars_of(p.as_str()),
            None => if contains_str(lower.as_slice(), "image data has been sent") {
                chars_of("image")
            } else if contains_str(lower.as_slice(), "download") || contains_str(
                lower.as_slice(),
                "write",
            ) || contains_str(lower.as_slice(), "format") || contains_str(
                lower.as_slice(),
                "flash",
            ) {
                chars_of("플래싱")
            } else {
                chars_of("작업 진행")
            },
        }
    };
    Some(SpftProgress { stage: string_of(stage.as_slice()), percent })
}

/// The message a status line of the tool is shown as, if any.
pub open spec fn status_message_of(line: Seq<char>) -> Option<Seq<char>> {
    let lower = ascii_lower(line);
    if contains(lower, "connect brom succeeded"@) {
        Some("BROM 연결 성공"@)
    } else if contains(lower, "enter da mode start"@) {
        Some("DA 모드 진입 시작"@)
    } else if contains(lower, "enter da mode succeed"@) {
        Some("DA 모드 진입 완료"@)
    } else if contains(lower, "get-sys-property command execute succeeded"@) {
        Some("시스템 속성 확인 완료"@)
    } else if contains(lower, "read-partition command execute succeeded"@) {
        Some("proinfo 백업 명령 완료"@)
    } else if contains(lower, "download command execute succeeded"@) || contains(
        lower,
        "download command execute done"@,
    ) {
        Some("플래싱 명령 완료"@)
    } else if contains(lower, "reboot command execute succeeded"@) {
        Some("재시작 명령 완료"@)
    } else if contains(lower, "all command exec done"@) {
        Some("SPFlashToolV6 작업 완료"@)
    } else if contains(lower, "warning"@) {
        Some("SPFlashToolV6 경고: "@ + line)
    } else if contains(lower, "error"@) || contains(lower, "fail"@) {
        Some("SPFlashToolV6 오류: "@ + line)
    } else {
        None
    }
}

fn literal(s: &str) -> (r: Option<String>)
    ensures
        opt_view(r) == Some(s@),
{
    let c = chars_of(s);
    Some(string_of(c.as_slice()))
}

fn prefixed(prefix: &str, line: &[char]) -> (r: Option<String>)
    ensures
        opt_view(r) == Some(prefix@ + line@),
{
    let mut c = chars_of(prefix);
    append(&mut c, line);
    Some(string_of(c.as_slice()))
}

/// The message a status line of the tool is shown as, if any.
pub fn parse_spflashtoolv6_status_message(line: &str) -> (r: Option<String>)
    ensures
        opt_view(r) == status_message_of(line@),
{
    let l = chars_of(line);
    let lower = ascii_lower_vec(l.as_slice());
    let lw = lower.as_slice();
    if contains_str(lw, "connect brom succeeded") {
        literal("BROM 연결 성공")
    } else if contains_str(lw, "enter da mode start") {
        literal("DA 모드 진입 시작")
    } else if contains_str(lw, "enter da mode succeed") {
        literal("DA 모드 진입 완료")
    } else if contains_str(lw, "get-sys-property command execute succeeded") {
        literal("시스템 속성 확인 완료")
    } else if contains_str(lw, "read-partition command execute succeeded") {
        literal("proinfo 백업 명령 완료")
    } else if contains_str(lw, "download command execute succeeded") || contains_str(
        lw,
        "download command execute done",
    ) {
        literal("플래싱 명령 완료")
    } else if contains_str(lw, "reboot command execute succeeded") {
        literal("재시작 명령 완료")
    } else if contains_str(lw, "all command exec done") {
        literal("SPFlashToolV6 작업 완료")
    } else if contains_str(lw, "warning") {
        prefixed("SPFlashToolV6 경고: ", l.as_slice())
    } else if contains_str(lw, "error") || contains_str(lw, "fail") {
        prefixed("SPFlashToolV6 오류: ", l.as_slice())
    } else {
        None
    }
}


/// The last `max` characters of `s`, or all of it when it is shorter.
pub open spec fn tail_of(s: Seq<char>, max: nat) -> Seq<char> {
    if s.len() <= max {
        s
    } else {
        s.subrange(s.len() - max, s.len() as int)
    }
}

/// The last `max_chars` characters of `value`.
pub fn tail_text(value: &str, max_chars: usize) -> (r: String)
    ensures
        r@ == tail_of(value@, max_chars as nat),
{
    let c = chars_of(value);
    if c.len() <= max_chars {
        return string_of(c.as_slice());
    }
    let t = subvec(c.as_slice(), c.len() - max_chars, c.len());
    string_of(t.as_slice())
}

/// A tail after `line` and a newline were appended to it and it was cut
/// back to its last `max` characters.
pub open spec fn appended_tail(target: Seq<char>, line: Seq<char>, max: nat) -> Seq<char> {
    tail_of(target + line + seq!['\n'], max)
}

/// Appends `line` and a newline to `target`, keeping its last `max_chars`
/// characters.
pub fn append_tail(target: &mut String, line: &str, max_chars: usize)
    ensures
        final(target)@ == appended_tail(old(target)@, line@, max_chars as nat),
{
    let mut c = chars_of(target.as_str());
    append_str(&mut c, line);
    c.push('\n');
    if c.len() > max_chars {
        let t = subvec(c.as_slice(), c.len() - max_chars, c.len());
        *target = string_of(t.as_slice());
    } else {
        *target = string_of(c.as_slice());
    }
}

/// Which output of the tool a line came from.
#[derive(Debug, Clone, Copy, PartialEq, Eq, Structural)]
pub enum PipeKind {
    Stdout,
    Stderr,
}

/// What a run of the tool keeps while its output is read: the tails of both
/// outputs and the last progress reported.
#[derive(Debug)]
pub struct PipeState {
    pub stdout_tail: String,
    pub stderr_tail: String,
    pub last_progress: Option<(String, u8)>,
}

/// The view of a last progress.
pub open spec fn progress_view(p: Option<(String, u8)>) -> Option<(Seq<char>, u8)> {
    match p {
        Some((s, n)) => Some((s@, n)),
        None => None,
    }
}

/// The length that a tail of the tool's output is kept to.
pub open spec fn tail_limit() -> nat {
    4000
}

impl PipeState {
    /// The state before any output was read.
    pub fn new() -> (r: PipeState)
        ensures
            r.stdout_tail@ == Seq::<char>::empty(),
            r.stderr_tail@ == Seq::<char>::empty(),
            r.last_progress is None,
    {
        PipeState { stdout_tail: String::new(), stderr_tail: String::new(), last_progress: None }
    }
}

/// The progress a line reports, as kept in the state.
pub open spec fn line_progress(line: Seq<char>) -> Option<(Seq<char>, u8)> {
    match percent_from(line, 0) {
        Some(p) => Some((progress_stage(line), p as u8)),
        None => None,
    }
}

/// Whether `e` is the event a line's handling reports, given the last
/// progress before it.
pub open spec fn pipe_event_is(
    e: Option<ProinfoLiveEvent>,
    last: Option<(Seq<char>, u8)>,
    line: Seq<char>,
) -> bool {
    match line_progress(line) {
        Some(p) => if last == Some(p) {
            e is None
        } else {
            e matches Some(ProinfoLiveEvent::Progress(q)) && q.stage@ == p.0 && q.percent == p.1
        },
        None => match status_message_of(line) {
            Some(m) => e matches Some(ProinfoLiveEvent::Log(l)) && l@ == m,
            None => e is None,
        },
    }
}

/// The last progress after a line was handled.
pub open spec fn next_progress(last: Option<(Seq<char>, u8)>, line: Seq<char>) -> Option<
    (Seq<char>, u8),
> {
    match line_progress(line) {
        Some(p) => Some(p),
        None => last,
    }
}

/// Handles a line of the tool's output: keeps it in the tail of its output,
/// and gives the event to report: a progress only when it differs from the
/// last one reported, else the status message the line stands for, if any.
pub fn handle_spflashtoolv6_pipe_line(state: &mut PipeState, kind: PipeKind, line: &str) -> (r:
    Option<ProinfoLiveEvent>)
    ensures
        match kind {
            PipeKind::Stdout => final(state).stdout_tail@ == appended_tail(
                old(state).stdout_tail@,
                line@,
                tail_limit(),
            ) && final(state).stderr_tail@ == old(state).stderr_tail@,
            PipeKind::Stderr => final(state).stderr_tail@ == appended_tail(
                old(state).stderr_tail@,
                line@,
                tail_limit(),
            ) && final(state).stdout_tail@ == old(state).stdout_tail@,
        },
        progress_view(final(state).last_progress) == next_progress(
            progress_view(old(state).last_progress),
            line@,
        ),
        pipe_event_is(r, progress_view(old(state).last_progress), line@),
{
    match kind {
        PipeKind::Stdout => append_tail(&mut state.stdout_tail, line, 4000),
        PipeKind::Stderr => append_tail(&mut state.stderr_tail, line, 4000),
    }
    match parse_spflashtoolv6_progress(line) {
        Some(progress) => {
            let same = match &state.last_progress {
                Some((stage, percent)) => {
                    let a = chars_of(stage.as_str());
                    let b = chars_of(progress.stage.as_str());
                    *percent == progress.percent && chars_eq(a.as_slice(), b.as_slice())
                },
                None => false,
            };
            let sc = chars_of(progress.stage.as_str());
            state.last_progress = Some((string_of(sc.as_slice()), progress.percent));
            if same {
                None
            } else {
                Some(ProinfoLiveEvent::Progress(progress))
            }
        },
        None => match parse_spflashtoolv6_status_message(line) {
            Some(message) => Some(ProinfoLiveEvent::Log(message)),
            None => None,
        },
    }
}

/// Handling the same progress line twice in a row reports it at most once:
/// the second handling reports nothing.
pub proof fn lemma_repeated_progress_reported_once(
    last: Option<(Seq<char>, u8)>,
    line: Seq<char>,
    e2: Option<ProinfoLiveEvent>,
)
    requires
        line_progress(line) is Some,
        pipe_event_is(e2, next_progress(last, line), line),
    ensures
        e2 is None,
{
}


/// The line a completed run of bytes becomes: decoded as
/// `String::from_utf8_lossy` does, then trimmed; none when that is empty.
pub open spec fn pending_line(pending: Seq<u8>) -> Option<Seq<char>> {
    let l = trim(utf8_lossy(pending));
    if pending.len() == 0 || l.len() == 0 {
        None
    } else {
        Some(l)
    }
}

/// Ends the line collected so far: gives it (decoded and trimmed, if not
/// empty) and empties the collection.
pub fn flush_pending_line(pending: &mut Vec<u8>) -> (r: Option<String>)
    ensures
        opt_view(r) == pending_line(old(pending)@),
        final(pending)@ == Seq::<u8>::empty(),
{
    if pending.len() == 0 {
        return None;
    }
    let decoded = from_utf8_lossy(pending.as_slice());
    let line = trim_vec(decoded.as_slice());
    pending.clear();
    if line.len() == 0 {
        return None;
    }
    Some(string_of(line.as_slice()))
}

/// The lines that bytes `chunk` complete, and the bytes left collecting, when
/// `pending` was collecting: every `\n` or `\r` ends a line.
pub open spec fn feed_bytes(pending: Seq<u8>, chunk: Seq<u8>) -> (Seq<u8>, Seq<Seq<char>>)
    decreases chunk.len(),
{
    if chunk.len() == 0 {
        (pending, seq![])
    } else {
        let (p, ls) = feed_bytes(pending, chunk.drop_last());
        let b = chunk.last();
        if b == 10 || b == 13 {
            match pending_line(p) {
                Some(l) => (Seq::<u8>::empty(), ls.push(l)),
                None => (Seq::<u8>::empty(), ls),
            }
        } else {
            (p.push(b), ls)
        }
    }
}

/// Takes bytes read from the tool's output: collects them into lines and
/// gives the lines they complete, in order.
pub fn feed_pipe_bytes(pending: &mut Vec<u8>, chunk: &[u8]) -> (r: Vec<String>)
    ensures
        (final(pending)@, string_views(r@)) == feed_bytes(old(pending)@, chunk@),
{
    let ghost start = pending@;
    let mut out: Vec<String> = Vec::new();
    let mut i: usize = 0;
    while i < chunk.len()
        invariant
            i <= chunk@.len(),
            (pending@, string_views(out@)) == feed_bytes(start, chunk@.subrange(0, i as int)),
        decreases chunk.len() - i,
    {
        let ghost pre = chunk@.subrange(0, i as int);
        let ghost nxt = chunk@.subrange(0, i + 1);
        assert(nxt.drop_last() =~= pre);
        let b = chunk[i];
        if b == 10u8 || b == 13u8 {
            let ghost before = out@;
            match flush_pending_line(pending) {
                Some(l) => {
                    out.push(l);
                    assert(string_views(out@) =~= string_views(before).push(out@.last()@));
                },
                None => {},
            }
        } else {
            pending.push(b);
        }
        i = i + 1;
    }
    assert(chunk@.subrange(0, i as int) =~= chunk@);
    out
}

/// A progress a tool line reports is never over 100.
pub proof fn lemma_percent_at_most_100(s: Seq<char>, k: int)
    ensures
        percent_from(s, k) matches Some(v) ==> v <= 100,
    decreases s.len() - k,
{
    if 0 <= k < s.len() {
        lemma_percent_at_most_100(s, k + 1);
    }
}

/// A kept tail is at most `max` characters long and is the end of the text.
pub proof fn lemma_tail_is_bounded_suffix(s: Seq<char>, max: nat)
    ensures
        tail_of(s, max).len() <= max,
        tail_of(s, max).len() <= s.len(),
        tail_of(s, max) == s.subrange(s.len() - tail_of(s, max).len(), s.len() as int),
{
    if s.len() <= max {
        assert(s.subrange(0, s.len() as int) =~= s);
    }
}

/// Output read in two chunks gives the lines that it gives read at once,
/// and leaves the same bytes collecting.
pub proof fn lemma_feed_bytes_in_chunks(p: Seq<u8>, a: Seq<u8>, b: Seq<u8>)
    ensures
        feed_bytes(p, a + b) == ({
            let (p1, l1) = feed_bytes(p, a);
            let (p2, l2) = feed_bytes(p1, b);
            (p2, l1 + l2)
        }),
    decreases b.len(),
{
    if b.len() == 0 {
        assert(a + b =~= a);
        let (p1, l1) = feed_bytes(p, a);
        assert(l1 + Seq::<Seq<char>>::empty() =~= l1);
    } else {
        lemma_feed_bytes_in_chunks(p, a, b.drop_last());
        assert((a + b).drop_last() =~= a + b.drop_last());
        assert((a + b).last() == b.last());
        let (p1, l1) = feed_bytes(p, a);
        let (q, l2) = feed_bytes(p1, b.drop_last());
        match pending_line(q) {
            Some(l) => {
                assert((l1 + l2).push(l) =~= l1 + l2.push(l));
            },
            None => {},
        }
    }
}

/// The text that stands for a character in XML.
pub open spec fn xml_escape_char(c: char) -> Seq<char> {
    if c == '&' {
        "&amp;"@
    } else if c == '<' {
        "&lt;"@
    } else if c == '>' {
        "&gt;"@
    } else if c == '"' {
        "&quot;"@
    } else if c == '\'' {
        "&apos;"@
    } else {
        seq![c]
    }
}

/// A text with each of `&`, `<`, `>`, `"` and `'` replaced by its entity.
pub open spec fn xml_escaped(s: Seq<char>) -> Seq<char>
    decreases s.len(),
{
    if s.len() == 0 {
        seq![]
    } else {
        xml_escaped(s.drop_last()) + xml_escape_char(s.last())
    }
}

/// `value` with each of `&`, `<`, `>`, `"` and `'` replaced by its XML
/// entity.
pub fn xml_escape(value: &str) -> (r: String)
    ensures
        r@ == xml_escaped(value@),
{
    let v = chars_of(value);
    let e = xml_escape_chars(v.as_slice());
    string_of(e.as_slice())
}

fn xml_escape_chars(v: &[char]) -> (r: Vec<char>)
    ensures
        r@ == xml_escaped(v@),
{
    let mut r: Vec<char> = Vec::new();
    let mut i: usize = 0;
    while i < v.len()
        invariant
            i <= v@.len(),
            r@ == xml_escaped(v@.subrange(0, i as int)),
        decreases v.len() - i,
    {
        assert(v@.subrange(0, i + 1).drop_last() =~= v@.subrange(0, i as int));
        let c = v[i];
        if c == '&' {
            append_str(&mut r, "&amp;");
        } else if c == '<' {
            append_str(&mut r, "&lt;");
        } else if c == '>' {
            append_str(&mut r, "&gt;");
        } else if c == '"' {
            append_str(&mut r, "&quot;");
        } else if c == '\'' {
            append_str(&mut r, "&apos;");
        } else {
            r.push(c);
        }
        i = i + 1;
    }
    assert(v@.subrange(0, i as int) =~= v@);
    r
}

/// Escaped text holds none of the characters XML gives a meaning in
/// attribute values and text: `<`, `>`, `"` and `'`.
pub proof fn lemma_xml_escaped_is_inert(s: Seq<char>)
    ensures
        !xml_escaped(s).contains('<'),
        !xml_escaped(s).contains('>'),
        !xml_escaped(s).contains('"'),
        !xml_escaped(s).contains('\''),
    decreases s.len(),
{
    reveal_strlit("&amp;");
    reveal_strlit("&lt;");
    reveal_strlit("&gt;");
    reveal_strlit("&quot;");
    reveal_strlit("&apos;");
    if s.len() > 0 {
        lemma_xml_escaped_is_inert(s.drop_last());
        let a = xml_escaped(s.drop_last());
        let b = xml_escape_char(s.last());
        assert forall|c: char| c == '<' || c == '>' || c == '"' || c == '\'' implies !(a
            + b).contains(c) by {
            if (a + b).contains(c) {
                let i = choose|i: int| 0 <= i < (a + b).len() && (a + b)[i] == c;
                if i < a.len() {
                    assert(a[i] == c);
                } else {
                    assert(b[i - a.len()] == c);
                }
            }
        }
    }
}


/// The text of the read-back configuration before the flash.xml path.
pub open spec fn config_part_1() -> Seq<char> {
    r#"<?xml version="1.0" encoding="UTF-8"?>
<cflashtool-config version="1.0">
  <general>
    <connect-args version="1.0" com_port_name="" baud_rate="" timeout_ms="3600000" com_port_type="USB-PCIE" conn_stage="2nd DA">
      <flash-xml>"#@
}

/// The text between the flash.xml path and the log folder.
pub open spec fn config_part_2() -> Seq<char> {
    r#"</flash-xml>
      <auth-file></auth-file>
      <cert-file></cert-file>
    </connect-args>
    <runtime-parameter version="1.0" da_log_level="INFO" system_os="WINDOWS" battery_status="0" log_channel="USB" checksum_level="1" initialize_dram="YES" usb_speed="0"/>
    <log-info version="1.0" log_path=""#@
}

/// The text between the log folder and the output file.
pub open spec fn config_part_3() -> Seq<char> {
    r#"" clean_hours="48"/>
  </general>
  <commands>
    <READ-PARTITION version="1.0" partition="proinfo">
      <target-file version="1.0" file_type="LOCAL_FILE" file_name=""#@
}

/// The text after the output file.
pub open spec fn config_part_4() -> Seq<char> {
    r#""/>
    </READ-PARTITION>
    <REBOOT version="1.0" action="COLD-RESET"/>
  </commands>
</cflashtool-config>"#@
}

/// The configuration that makes SP Flash Tool V6 read the `proinfo`
/// partition into a file, with the paths (as displayed) escaped for XML.
pub open spec fn readback_config(flash_xml: Seq<char>, log_dir: Seq<char>, proinfo_out: Seq<char>) -> Seq<char> {
    config_part_1() + xml_escaped(flash_xml) + config_part_2() + xml_escaped(log_dir)
        + config_part_3() + xml_escaped(proinfo_out) + config_part_4()
}

/// The read-back configuration, whatever the paths, holds one command that
/// reads the `proinfo` partition into the output file (escaped for XML).
pub proof fn lemma_readback_reads_proinfo(flash_xml: Seq<char>, log_dir: Seq<char>, proinfo_out: Seq<char>)
    ensures
        contains(
            readback_config(flash_xml, log_dir, proinfo_out),
            r#"<READ-PARTITION version="1.0" partition="proinfo">
      <target-file version="1.0" file_type="LOCAL_FILE" file_name=""#@ + xml_escaped(proinfo_out) + r#""/>
    </READ-PARTITION>"#@,
        ),
{
    reveal_strlit(r#"<READ-PARTITION version="1.0" partition="proinfo">
      <target-file version="1.0" file_type="LOCAL_FILE" file_name=""#);
    reveal_strlit(r#""/>
    </READ-PARTITION>"#);
    reveal_strlit(r#"" clean_hours="48"/>
  </general>
  <commands>
    "#);
    reveal_strlit(r#"
    <REBOOT version="1.0" action="COLD-RESET"/>
  </commands>
</cflashtool-config>"#);
    reveal_strlit(r#"" clean_hours="48"/>
  </general>
  <commands>
    <READ-PARTITION version="1.0" partition="proinfo">
      <target-file version="1.0" file_type="LOCAL_FILE" file_name=""#);
    reveal_strlit(r#""/>
    </READ-PARTITION>
    <REBOOT version="1.0" action="COLD-RESET"/>
  </commands>
</cflashtool-config>"#);
    assert(config_part_3() =~= r#"" clean_hours="48"/>
  </general>
  <commands>
    "#@ + r#"<READ-PARTITION version="1.0" partition="proinfo">
      <target-file version="1.0" file_type="LOCAL_FILE" file_name=""#@);
    assert(config_part_4() =~= r#""/>
    </READ-PARTITION>"#@ + r#"
    <REBOOT version="1.0" action="COLD-RESET"/>
  </commands>
</cflashtool-config>"#@);
    let cmd = r#"<READ-PARTITION version="1.0" partition="proinfo">
      <target-file version="1.0" file_type="LOCAL_FILE" file_name=""#@ + xml_escaped(proinfo_out) + r#""/>
    </READ-PARTITION>"#@;
    let before = config_part_1() + xml_escaped(flash_xml) + config_part_2() + xml_escaped(log_dir)
        + r#"" clean_hours="48"/>
  </general>
  <commands>
    "#@;
    let cfg = readback_config(flash_xml, log_dir, proinfo_out);
    assert(cfg =~= before + cmd + r#"
    <REBOOT version="1.0" action="COLD-RESET"/>
  </commands>
</cflashtool-config>"#@);
    assert(cfg.subrange(before.len() as int, (before.len() + cmd.len()) as int) =~= cmd);
    assert(crate::text::matches_at(cfg, cmd, before.len() as int));
    lemma_find_from(cfg, cmd, 0);
}

/// The read-back configuration for the given paths (as displayed).
pub fn build_readback_config_xml(flash_xml: &str, log_dir: &str, proinfo_out: &str) -> (r: String)
    ensures
        r@ == readback_config(flash_xml@, log_dir@, proinfo_out@),
{
    let a = chars_of(flash_xml);
    let b = chars_of(log_dir);
    let c = chars_of(proinfo_out);
    let ea = xml_escape_chars(a.as_slice());
    let eb = xml_escape_chars(b.as_slice());
    let ec = xml_escape_chars(c.as_slice());
    let mut r = chars_of(r#"<?xml version="1.0" encoding="UTF-8"?>
<cflashtool-config version="1.0">
  <general>
    <connect-args version="1.0" com_port_name="" baud_rate="" timeout_ms="3600000" com_port_type="USB-PCIE" conn_stage="2nd DA">
      <flash-xml>"#);
    append(&mut r, ea.as_slice());
    append_str(&mut r, r#"</flash-xml>
      <auth-file></auth-file>
      <cert-file></cert-file>
    </connect-args>
    <runtime-parameter version="1.0" da_log_level="INFO" system_os="WINDOWS" battery_status="0" log_channel="USB" checksum_level="1" initialize_dram="YES" usb_speed="0"/>
    <log-info version="1.0" log_path=""#);
    append(&mut r, eb.as_slice());
    append_str(&mut r, r#"" clean_hours="48"/>
  </general>
  <commands>
    <READ-PARTITION version="1.0" partition="proinfo">
      <target-file version="1.0" file_type="LOCAL_FILE" file_name=""#);
    append(&mut r, ec.as_slice());
    append_str(&mut r, r#""/>
    </READ-PARTITION>
    <REBOOT version="1.0" action="COLD-RESET"/>
  </commands>
</cflashtool-config>"#);
    string_of(r.as_slice())
}


/// A component of a path inside an archive.
#[derive(Debug, Clone)]
pub enum ZipPathPart {
    /// A plain name.
    Normal(String),
    /// A root, prefix, `.` or `..`.
    Special,
}

/// Whether a name is one of the files SP Flash Tool V6 keeps at its root
/// (ASCII case ignored).
pub open spec fn spft_root_entry(v: Seq<char>) -> bool {
    eq_ignore_case(v, "SPFlashToolV6.exe"@) || eq_ignore_case(v, "flash.dll"@) || eq_ignore_case(
        v,
        "Qt5Core.dll"@,
    ) || eq_ignore_case(v, "Qt5Gui.dll"@) || eq_ignore_case(v, "Qt5Widgets.dll"@)
        || eq_ignore_case(v, "plugins"@)
}

/// Whether `value` names a file SP Flash Tool V6 keeps at its root.
pub fn is_spft_root_entry(value: &str) -> (b: bool)
    ensures
        b == spft_root_entry(value@),
{
    let v = chars_of(value);
    let s = v.as_slice();
    eq_ignore_case_str(s, "SPFlashToolV6.exe") || eq_ignore_case_str(s, "flash.dll")
        || eq_ignore_case_str(s, "Qt5Core.dll") || eq_ignore_case_str(s, "Qt5Gui.dll")
        || eq_ignore_case_str(s, "Qt5Widgets.dll") || eq_ignore_case_str(s, "plugins")
}

/// Whether a name is that of a folder an archive of the tool wraps it in.
pub open spec fn spft_wrapper_folder(v: Seq<char>) -> bool {
    let lower = ascii_lower(v);
    contains(lower, "sp_flash_tool"@) || contains(lower, "spflashtool"@) || contains(
        lower,
        "flash_tool"@,
    ) || contains(lower, "v6.2404"@)
}

/// Whether `value` names a folder that an archive of the tool wraps it in.
pub fn is_spft_wrapper_folder(value: &str) -> (b: bool)
    ensures
        b == spft_wrapper_folder(value@),
{
    let v = chars_of(value);
    let lower = ascii_lower_vec(v.as_slice());
    let l = lower.as_slice();
    contains_str(l, "sp_flash_tool") || contains_str(l, "spflashtool") || contains_str(
        l,
        "flash_tool",
    ) || contains_str(l, "v6.2404")
}

/// Whether an archive component is left out: macOS metadata, backups and
/// hidden names.
pub open spec fn skipped_name(v: Seq<char>) -> bool {
    eq_ignore_case(v, "__MACOSX"@) || eq_ignore_case(v, "BackupData"@) || starts_with(
        v,
        seq!['.'],
    )
}

/// The names of an archive path, when they are all plain and none is left
/// out.
pub open spec fn plain_names(parts: Seq<ZipPathPart>) -> Option<Seq<Seq<char>>>
    decreases parts.len(),
{
    if parts.len() == 0 {
        Some(seq![])
    } else {
        match plain_names(parts.drop_last()) {
            None => None,
            Some(r) => match parts.last() {
                ZipPathPart::Special => None,
                ZipPathPart::Normal(n) => if skipped_name(n@) {
                    None
                } else {
                    Some(r.push(n@))
                },
            },
        }
    }
}

/// Where an entry of the official archive goes under the tool's folder:
/// none for a path with a special or left-out component, for an empty path
/// and for a lone wrapper folder; a leading wrapper folder (that is not a
/// root file of the tool) is dropped.
pub open spec fn spft_entry_target(parts: Seq<ZipPathPart>) -> Option<Seq<Seq<char>>> {
    match plain_names(parts) {
        None => None,
        Some(names) => if names.len() == 0 {
            None
        } else if names.len() == 1 && spft_wrapper_folder(names[0]) {
            None
        } else if names.len() > 1 && spft_wrapper_folder(names[0]) && !spft_root_entry(names[0]) {
            Some(names.drop_first())
        } else {
            Some(names)
        },
    }
}

/// Where an entry of the official archive goes under the tool's folder, as
/// the names of the path below it.
pub fn normalize_spft_zip_entry_path(parts: &Vec<ZipPathPart>) -> (r: Option<Vec<String>>)
    ensures
        match r {
            Some(v) => spft_entry_target(parts@) == Some(string_views(v@)),
            None => spft_entry_target(parts@) is None,
        },
{
    let mut names: Vec<String> = Vec::new();
    let mut i: usize = 0;
    while i < parts.len()
        invariant
            i <= parts@.len(),
            plain_names(parts@.subrange(0, i as int)) == Some(string_views(names@)),
        decreases parts.len() - i,
    {
        let ghost pre = parts@.subrange(0, i as int);
        assert(parts@.subrange(0, i + 1).drop_last() =~= pre);
        assert(parts@.subrange(0, i + 1).last() == parts@[i as int]);
        match &parts[i] {
            ZipPathPart::Special => {
                proof {
                    lemma_plain_names_none(parts@, i as int + 1);
                }
                return None;
            },
            ZipPathPart::Normal(n) => {
                let v = chars_of(n.as_str());
                assert(v@.len() > 0 ==> v@.subrange(0, 1) =~= seq![v@[0]]);
                if eq_ignore_case_str(v.as_slice(), "__MACOSX") || eq_ignore_case_str(
                    v.as_slice(),
                    "BackupData",
                ) || (v.len() > 0 && v[0] == '.') {
                    proof {
                        assert(skipped_name(n@));
                        lemma_plain_names_none(parts@, i as int + 1);
                    }
                    return None;
                }
                proof {
                    if v@.len() > 0 {
                        assert(v@.subrange(0, 1)[0] != '.');
                    }
                    assert(!starts_with(n@, seq!['.']));
                }
                let ghost before = names@;
                names.push(string_of(v.as_slice()));
                assert(string_views(names@) =~= string_views(before).push(n@));
            },
        }
        i = i + 1;
    }
    assert(parts@.subrange(0, i as int) =~= parts@);
    if names.len() == 0 {
        return None;
    }
    let first = names[0].as_str();
    if names.len() == 1 && is_spft_wrapper_folder(first) {
        return None;
    }
    if names.len() > 1 && is_spft_wrapper_folder(first) && !is_spft_root_entry(first) {
        let mut rest: Vec<String> = Vec::new();
        let mut j: usize = 1;
        while j < names.len()
            invariant
                1 <= j <= names@.len(),
                string_views(rest@) == string_views(names@).subrange(1, j as int),
            decreases names.len() - j,
        {
            let c = chars_of(names[j].as_str());
            assert(c@ == string_views(names@)[j as int]);
            let ghost before = rest@;
            rest.push(string_of(c.as_slice()));
            assert(string_views(rest@) =~= string_views(before).push(c@));
            assert(string_views(rest@) =~= string_views(names@).subrange(1, j + 1));
            j = j + 1;
        }
        assert(string_views(names@).subrange(1, j as int) =~= string_views(names@).drop_first());
        return Some(rest);
    }
    Some(names)
}

/// Once a component stops an archive path, the whole path is stopped.
proof fn lemma_plain_names_none(parts: Seq<ZipPathPart>, k: int)
    requires
        0 <= k <= parts.len(),
        plain_names(parts.subrange(0, k)) is None,
    ensures
        plain_names(parts) is None,
    decreases parts.len() - k,
{
    if k < parts.len() {
        assert(parts.subrange(0, k + 1).drop_last() =~= parts.subrange(0, k));
        lemma_plain_names_none(parts, k + 1);
    } else {
        assert(parts.subrange(0, k) =~= parts);
    }
}

/// Whether an entry of the bundled archive is left out, by its first
/// component: a missing or special one, macOS metadata, backups and hidden
/// names.
pub open spec fn skipped_tool_entry(first: Option<ZipPathPart>) -> bool {
    match first {
        None => true,
        Some(ZipPathPart::Special) => true,
        Some(ZipPathPart::Normal(n)) => eq_ignore_case(n@, "BackupData"@) || eq_ignore_case(
            n@,
            "__MACOSX"@,
        ) || starts_with(n@, seq!['.']),
    }
}

/// Whether an entry of the bundled archive is left out, by its first
/// component.
pub fn should_skip_tool_entry(first: &Option<ZipPathPart>) -> (b: bool)
    ensures
        b == skipped_tool_entry(*first),
{
    match first {
        None => true,
        Some(ZipPathPart::Special) => true,
        Some(ZipPathPart::Normal(n)) => {
            let v = chars_of(n.as_str());
            assert(v@.len() > 0 ==> v@.subrange(0, 1) =~= seq![v@[0]]);
            let r = eq_ignore_case_str(v.as_slice(), "BackupData") || eq_ignore_case_str(
                v.as_slice(),
                "__MACOSX",
            ) || (v.len() > 0 && v[0] == '.');
            proof {
                if v@.len() > 0 {
                    assert(v@.subrange(0, 1)[0] == v@[0]);
                }
            }
            r
        },
    }
}


/// The revision of the tool that the revision marker records.
pub open spec fn spft_tool_revision() -> Seq<char> {
    "spflashtoolv6_official_v6_2404_20260615_a"@
}

/// Whether the tool's folder holds the expected revision: its executable is
/// there and its revision marker reads (trimmed) as the expected revision.
pub fn spft_tool_is_current(exe_is_file: bool, marker_text: Option<&str>) -> (b: bool)
    ensures
        b == (exe_is_file && (marker_text matches Some(t) && trim(t@) == spft_tool_revision())),
{
    if !exe_is_file {
        return false;
    }
    match marker_text {
        None => false,
        Some(t) => {
            let tc = chars_of(t);
            let tt = trim_vec(tc.as_slice());
            let rev = chars_of("spflashtoolv6_official_v6_2404_20260615_a");
            chars_eq(tt.as_slice(), rev.as_slice())
        },
    }
}

/// Where making the tool ready stands.
#[derive(Debug, Clone, Copy, PartialEq, Eq, Structural)]
pub enum ToolStage {
    Start,
    /// Waiting for what the tool's folder holds.
    AwaitInspection,
    /// Waiting for the folder to be emptied.
    AwaitReset,
    /// Waiting for the official archive's download.
    AwaitDownload,
    /// Waiting for an earlier download of the official archive.
    AwaitCached,
    /// Waiting for an archive to be unpacked (`official` or the bundled one).
    AwaitExtract { official: bool },
    /// Waiting for wrapper folders to be removed.
    AwaitCleanup,
    /// Waiting for the revision marker to be written.
    AwaitMarker,
    /// Waiting for the list of required files that are missing.
    AwaitValidation,
}

/// What the program is asked to do and report back.
#[derive(Debug, Clone, Copy, PartialEq, Eq, Structural)]
pub enum ToolRequest {
    /// Make the runtime directories, remove wrapper folders from the tool's
    /// folder, and report whether the executable is a file and what the
    /// revision marker reads.
    Inspect,
    /// Remove the tool's folder and make it anew.
    Reset,
    /// Download the official archive.
    DownloadOfficial,
    /// Use an earlier, complete download of the official archive.
    UseCachedOfficial,
    /// Unpack the official archive (entries placed as
    /// `normalize_spft_zip_entry_path` says).
    ExtractOfficial,
    /// Unpack the bundled archive (entries left out as
    /// `should_skip_tool_entry` says).
    ExtractBundled,
    /// Remove wrapper folders from the tool's folder.
    Cleanup,
    /// Write the revision marker.
    WriteMarker,
    /// Report the required files that are missing (as shown).
    Validate,
}

/// The outcome of a request.
pub enum ToolEvent {
    Begin,
    /// What `Inspect` found: whether the executable is a file, and the
    /// marker's text if it could be read (or the error of making the
    /// directories).
    Inspected(Result<(bool, Option<String>), LpmError>),
    Done(Result<(), LpmError>),
    Missing(Vec<String>),
}

/// What follows a step.
pub enum ToolNext {
    Await(ToolRequest, ToolStage),
    Finish(Result<(), LpmError>),
}

/// Whether an event is the outcome of what a stage waits for.
pub open spec fn tool_event_fits(stage: ToolStage, event: ToolEvent) -> bool {
    match stage {
        ToolStage::Start => event is Begin,
        ToolStage::AwaitInspection => event is Inspected,
        ToolStage::AwaitValidation => event is Missing,
        _ => event is Done,
    }
}

/// What one step of making the tool ready does: a tool folder of the
/// expected revision is kept; otherwise the official archive is downloaded
/// (or an earlier download used, or else the bundled archive), unpacked,
/// cleaned of wrapper folders, marked with the revision and checked for the
/// required files. Any other failure ends the step with its error.
pub open spec fn tool_step_spec(stage: ToolStage, event: ToolEvent, next: ToolNext) -> bool {
    let failed = |e: LpmError| next == ToolNext::Finish(Err(e));
    match stage {
        ToolStage::Start => next == ToolNext::Await(ToolRequest::Inspect, ToolStage::AwaitInspection),
        ToolStage::AwaitInspection => match event {
            ToolEvent::Inspected(Err(e)) => failed(e),
            ToolEvent::Inspected(Ok(_)) => if found_current_tool(event) {
                next == ToolNext::Finish(Ok(()))
            } else {
                next == ToolNext::Await(ToolRequest::Reset, ToolStage::AwaitReset)
            },
            _ => false,
        },
        ToolStage::AwaitReset => match event {
            ToolEvent::Done(Err(e)) => failed(e),
            ToolEvent::Done(Ok(())) => next == ToolNext::Await(ToolRequest::DownloadOfficial, ToolStage::AwaitDownload),
            _ => false,
        },
        ToolStage::AwaitDownload => match event {
            ToolEvent::Done(Ok(())) => next == ToolNext::Await(
                ToolRequest::ExtractOfficial,
                ToolStage::AwaitExtract { official: true },
            ),
            ToolEvent::Done(Err(_)) => next == ToolNext::Await(ToolRequest::UseCachedOfficial, ToolStage::AwaitCached),
            _ => false,
        },
        ToolStage::AwaitCached => match event {
            ToolEvent::Done(Ok(())) => next == ToolNext::Await(
                ToolRequest::ExtractOfficial,
                ToolStage::AwaitExtract { official: true },
            ),
            ToolEvent::Done(Err(_)) => next == ToolNext::Await(
                ToolRequest::ExtractBundled,
                ToolStage::AwaitExtract { official: false },
            ),
            _ => false,
        },
        ToolStage::AwaitExtract { .. } => match event {
            ToolEvent::Done(Err(e)) => failed(e),
            ToolEvent::Done(Ok(())) => next == ToolNext::Await(ToolRequest::Cleanup, ToolStage::AwaitCleanup),
            _ => false,
        },
        ToolStage::AwaitCleanup => match event {
            ToolEvent::Done(Err(e)) => failed(e),
            ToolEvent::Done(Ok(())) => next == ToolNext::Await(ToolRequest::WriteMarker, ToolStage::AwaitMarker),
            _ => false,
        },
        ToolStage::AwaitMarker => match event {
            ToolEvent::Done(Err(e)) => failed(e),
            ToolEvent::Done(Ok(())) => next == ToolNext::Await(ToolRequest::Validate, ToolStage::AwaitValidation),
            _ => false,
        },
        ToolStage::AwaitValidation => match event {
            ToolEvent::Missing(missing) => if missing@.len() == 0 {
                next == ToolNext::Finish(Ok(()))
            } else {
                &&& next matches ToolNext::Finish(Err(LpmError::Spft(m)))
                &&& m@ == "내장 SPFlashToolV6 추출 후 필수 파일이 없습니다: "@ + join(string_views(missing@), " / "@)
            },
            _ => false,
        },
    }
}

/// `ensure_embedded_spflashtoolv6_tool`, one step at a time: from the stage
/// and the outcome of what it waited for, what follows.
pub fn ensure_embedded_spflashtoolv6_tool(stage: ToolStage, event: ToolEvent) -> (next: ToolNext)
    requires
        tool_event_fits(stage, event),
    ensures
        tool_step_spec(stage, event, next),
{
    match stage {
        ToolStage::Start => ToolNext::Await(ToolRequest::Inspect, ToolStage::AwaitInspection),
        ToolStage::AwaitInspection => match event {
            ToolEvent::Inspected(Err(e)) => ToolNext::Finish(Err(e)),
            ToolEvent::Inspected(Ok((exe_is_file, marker))) => {
                let current = match &marker {
                    Some(t) => spft_tool_is_current(exe_is_file, Some(t.as_str())),
                    None => spft_tool_is_current(exe_is_file, None),
                };
                if current {
                    ToolNext::Finish(Ok(()))
                } else {
                    ToolNext::Await(ToolRequest::Reset, ToolStage::AwaitReset)
                }
            },
            _ => ToolNext::Finish(Ok(())),
        },
        ToolStage::AwaitReset => match event {
            ToolEvent::Done(Err(e)) => ToolNext::Finish(Err(e)),
            _ => ToolNext::Await(ToolRequest::DownloadOfficial, ToolStage::AwaitDownload),
        },
        ToolStage::AwaitDownload => match event {
            ToolEvent::Done(Ok(())) => ToolNext::Await(
                ToolRequest::ExtractOfficial,
                ToolStage::AwaitExtract { official: true },
            ),
            _ => ToolNext::Await(ToolRequest::UseCachedOfficial, ToolStage::AwaitCached),
        },
        ToolStage::AwaitCached => match event {
            ToolEvent::Done(Ok(())) => ToolNext::Await(
                ToolRequest::ExtractOfficial,
                ToolStage::AwaitExtract { official: true },
            ),
            _ => ToolNext::Await(ToolRequest::ExtractBundled, ToolStage::AwaitExtract { official: false }),
        },
        ToolStage::AwaitExtract { .. } => match event {
            ToolEvent::Done(Err(e)) => ToolNext::Finish(Err(e)),
            _ => ToolNext::Await(ToolRequest::Cleanup, ToolStage::AwaitCleanup),
        },
        ToolStage::AwaitCleanup => match event {
            ToolEvent::Done(Err(e)) => ToolNext::Finish(Err(e)),
            _ => ToolNext::Await(ToolRequest::WriteMarker, ToolStage::AwaitMarker),
        },
        ToolStage::AwaitMarker => match event {
            ToolEvent::Done(Err(e)) => ToolNext::Finish(Err(e)),
            _ => ToolNext::Await(ToolRequest::Validate, ToolStage::AwaitValidation),
        },
        ToolStage::AwaitValidation => match event {
            ToolEvent::Missing(missing) => match missing_tool_files_error(&missing) {
                Ok(()) => ToolNext::Finish(Ok(())),
                Err(e) => ToolNext::Finish(Err(e)),
            },
            _ => ToolNext::Finish(Ok(())),
        },
    }
}

/// Whether making the tool ready may take this stage and event.
pub fn tool_step_allowed(stage: &ToolStage, event: &ToolEvent) -> (b: bool)
    ensures
        b == tool_event_fits(*stage, *event),
{
    match stage {
        ToolStage::Start => matches!(event, ToolEvent::Begin),
        ToolStage::AwaitInspection => matches!(event, ToolEvent::Inspected(_)),
        ToolStage::AwaitValidation => matches!(event, ToolEvent::Missing(_)),
        _ => matches!(event, ToolEvent::Done(_)),
    }
}

/// Whether an inspection found the executable and the expected revision.
pub open spec fn found_current_tool(event: ToolEvent) -> bool {
    match event {
        ToolEvent::Inspected(Ok((exe_is_file, marker))) => exe_is_file && match marker {
            Some(t) => trim(t@) == spft_tool_revision(),
            None => false,
        },
        _ => false,
    }
}

/// Whether a validation found no required file missing.
pub open spec fn found_complete_tool(event: ToolEvent) -> bool {
    match event {
        ToolEvent::Missing(m) => m@.len() == 0,
        _ => false,
    }
}

/// Making the tool ready succeeds only with a folder of the expected
/// revision, or after an archive was unpacked, marked and found to hold every
/// required file.
pub proof fn lemma_tool_ready_only_when_checked(stage: ToolStage, event: ToolEvent, next: ToolNext)
    requires
        tool_event_fits(stage, event),
        tool_step_spec(stage, event, next),
        next matches ToolNext::Finish(Ok(())),
    ensures
        (stage == ToolStage::AwaitInspection && found_current_tool(event)) || (stage
            == ToolStage::AwaitValidation && found_complete_tool(event)),
{
}

/// The files, as names below the tool's folder, that an extracted tool must
/// hold.
pub open spec fn required_tool_files() -> Seq<Seq<Seq<char>>> {
    seq![
        seq!["SPFlashToolV6.exe"@],
        seq!["flash.dll"@],
        seq!["Qt5Core.dll"@],
        seq!["Qt5Gui.dll"@],
        seq!["Qt5Widgets.dll"@],
        seq!["plugins"@, "platforms"@, "qwindows.dll"@],
    ]
}

/// The files, as names below the tool's folder, that an extracted tool must
/// hold.
pub fn required_spflashtoolv6_files() -> (r: Vec<Vec<&'static str>>)
    ensures
        r@.len() == required_tool_files().len(),
        forall|i: int|
            0 <= i < r@.len() ==> r@[i]@.map_values(|x: &'static str| x@)
                == required_tool_files()[i],
{
    let r = vec![
        vec!["SPFlashToolV6.exe"],
        vec!["flash.dll"],
        vec!["Qt5Core.dll"],
        vec!["Qt5Gui.dll"],
        vec!["Qt5Widgets.dll"],
        vec!["plugins", "platforms", "qwindows.dll"],
    ];
    assert forall|i: int|
        0 <= i < r@.len() implies r@[i]@.map_values(|x: &'static str| x@)
        == required_tool_files()[i] by {
        assert(r@[i]@.map_values(|x: &'static str| x@) =~= required_tool_files()[i]);
    }
    r
}

/// The outcome of checking an extracted tool, given the required files that
/// are missing (as displayed): an error that lists them, separated by
/// ` / `, unless none is.
pub fn missing_tool_files_error(missing: &Vec<String>) -> (r: Result<(), LpmError>)
    ensures
        match r {
            Ok(()) => missing@.len() == 0,
            Err(LpmError::Spft(m)) => missing@.len() > 0 && m@ == "내장 SPFlashToolV6 추출 후 필수 파일이 없습니다: "@
                + join(string_views(missing@), " / "@),
            Err(_) => false,
        },
{
    if missing.len() == 0 {
        return Ok(());
    }
    let mut m = chars_of("내장 SPFlashToolV6 추출 후 필수 파일이 없습니다: ");
    let j = join_exec(missing, " / ");
    append(&mut m, j.as_slice());
    Err(LpmError::Spft(string_of(m.as_slice())))
}

/// Which folder a selection makes the image folder.
#[derive(Debug, Clone, Copy, PartialEq, Eq, Structural)]
pub enum ImageDirChoice {
    /// The selected folder is the image folder; its parent is the root.
    Selected,
    /// The selected folder is the root; its `image` child is the image folder.
    Child,
}

/// Which folder a selection makes the image folder: the selection itself when
/// it is named `image` (ASCII case ignored) and has a parent, else its
/// `image` child when that is a folder. `display` shows the selection in
/// messages.
pub fn resolve_image_dir_choice(
    selected_is_dir: bool,
    selected_name: Option<&str>,
    has_parent: bool,
    child_image_is_dir: bool,
    display: &str,
) -> (r: Result<ImageDirChoice, LpmError>)
    ensures
        ({
            let named_image = selected_name matches Some(n) && eq_ignore_case(n@, "image"@);
            match r {
                Ok(ImageDirChoice::Selected) => selected_is_dir && named_image && has_parent,
                Ok(ImageDirChoice::Child) => selected_is_dir && !named_image && child_image_is_dir,
                Err(LpmError::InvalidFirmwareFolder(m)) => if !selected_is_dir {
                    m@ == display@
                } else if named_image {
                    !has_parent && m@ == "image 폴더의 상위 root 경로를 찾지 못했습니다: "@ + display@
                } else {
                    !child_image_is_dir && m@
                        == "image 폴더 또는 image 폴더를 포함한 root 폴더를 선택해야 합니다: "@
                        + display@
                },
                Err(_) => false,
            }
        }),
{
    if !selected_is_dir {
        let d = chars_of(display);
        return Err(LpmError::InvalidFirmwareFolder(string_of(d.as_slice())));
    }
    let named_image = match selected_name {
        Some(n) => {
            let nc = chars_of(n);
            eq_ignore_case_str(nc.as_slice(), "image")
        },
        None => false,
    };
    if named_image {
        if !has_parent {
            let mut m = chars_of("image 폴더의 상위 root 경로를 찾지 못했습니다: ");
            append_str(&mut m, display);
            return Err(LpmError::InvalidFirmwareFolder(string_of(m.as_slice())));
        }
        return Ok(ImageDirChoice::Selected);
    }
    if child_image_is_dir {
        return Ok(ImageDirChoice::Child);
    }
    let mut m = chars_of("image 폴더 또는 image 폴더를 포함한 root 폴더를 선택해야 합니다: ");
    append_str(&mut m, display);
    Err(LpmError::InvalidFirmwareFolder(string_of(m.as_slice())))
}

/// An exit code as `{:?}` shows an `Option<i32>`.
pub open spec fn exit_code_text(code: Option<i32>) -> Seq<char> {
    match code {
        Some(c) => "Some("@ + int_text(c as int) + ")"@,
        None => "None"@,
    }
}

fn exit_code_text_exec(code: Option<i32>) -> (r: Vec<char>)
    ensures
        r@ == exit_code_text(code),
{
    match code {
        Some(c) => {
            let mut r = chars_of("Some(");
            let t = int_text_exec(c);
            append(&mut r, t.as_slice());
            append_str(&mut r, ")");
            r
        },
        None => chars_of("None"),
    }
}

/// The outcome of a `proinfo` read-back: a failure of the tool, else a
/// missing or empty output file (shown as `proinfo_display`), is an error.
pub fn readback_outcome(
    success: bool,
    exit_code: Option<i32>,
    stderr_tail: &str,
    proinfo_exists: bool,
    proinfo_size: u64,
    proinfo_display: &str,
) -> (r: Result<(), LpmError>)
    ensures
        match r {
            Ok(()) => success && proinfo_exists && proinfo_size > 0,
            Err(LpmError::Spft(m)) => if !success {
                m@ == "SPFlashToolV6 readback 실패 / exit_code="@ + exit_code_text(exit_code)
                    + " / stderr="@ + stderr_tail@
            } else {
                (!proinfo_exists || proinfo_size == 0) && m@
                    == "SPFlashToolV6 실행은 완료됐지만 proinfo 백업 파일이 생성되지 않았습니다: "@
                    + proinfo_display@
            },
            Err(_) => false,
        },
{
    if !success {
        let mut m = chars_of("SPFlashToolV6 readback 실패 / exit_code=");
        let c = exit_code_text_exec(exit_code);
        append(&mut m, c.as_slice());
        append_str(&mut m, " / stderr=");
        append_str(&mut m, stderr_tail);
        return Err(LpmError::Spft(string_of(m.as_slice())));
    }
    if !proinfo_exists || proinfo_size == 0 {
        let mut m = chars_of("SPFlashToolV6 실행은 완료됐지만 proinfo 백업 파일이 생성되지 않았습니다: ");
        append_str(&mut m, proinfo_display);
        return Err(LpmError::Spft(string_of(m.as_slice())));
    }
    Ok(())
}

/// The outcome of a firmware download: a failure of the tool is an error.
pub fn download_outcome(success: bool, exit_code: Option<i32>, stderr_tail: &str) -> (r: Result<
    (),
    LpmError,
>)
    ensures
        match r {
            Ok(()) => success,
            Err(LpmError::Spft(m)) => !success && m@ == "SPFlashToolV6 download 실패 / exit_code="@
                + exit_code_text(exit_code) + " / stderr="@ + stderr_tail@,
            Err(_) => false,
        },
{
    if !success {
        let mut m = chars_of("SPFlashToolV6 download 실패 / exit_code=");
        let c = exit_code_text_exec(exit_code);
        append(&mut m, c.as_slice());
        append_str(&mut m, " / stderr=");
        append_str(&mut m, stderr_tail);
        return Err(LpmError::Spft(string_of(m.as_slice())));
    }
    Ok(())
}

/// The log lines at the start of a firmware download: the tool, the download
/// agent and the flash description used (their paths as shown).
pub fn download_start_logs(spft_exe: &str, da_path: &str, flash_xml: &str) -> (r: Vec<String>)
    ensures
        string_views(r@) == seq![
            "SPFlashToolV6 download 실행 시작"@,
            "SPFlashToolV6.exe: "@ + spft_exe@,
            "DA 파일: "@ + da_path@,
            "flash.xml: "@ + flash_xml@,
        ],
{
    let mut r: Vec<String> = Vec::new();
    r.push("SPFlashToolV6 download 실행 시작".to_string());
    let mut a = chars_of("SPFlashToolV6.exe: ");
    append_str(&mut a, spft_exe);
    r.push(string_of(a.as_slice()));
    let mut b = chars_of("DA 파일: ");
    append_str(&mut b, da_path);
    r.push(string_of(b.as_slice()));
    let mut c = chars_of("flash.xml: ");
    append_str(&mut c, flash_xml);
    r.push(string_of(c.as_slice()));
    assert(string_views(r@) =~= seq![
        "SPFlashToolV6 download 실행 시작"@,
        "SPFlashToolV6.exe: "@ + spft_exe@,
        "DA 파일: "@ + da_path@,
        "flash.xml: "@ + flash_xml@,
    ]);
    r
}

/// The error when an image directory has no flash description: both places
/// looked at (as shown).
pub fn flash_xml_not_found_error(agent_flash_xml: &str, flash_xml: &str) -> (r: LpmError)
    ensures
        r matches LpmError::FileNotFound(m) && m@ == agent_flash_xml@ + " 또는 "@ + flash_xml@,
{
    let mut c = chars_of(agent_flash_xml);
    append_str(&mut c, " 또는 ");
    append_str(&mut c, flash_xml);
    LpmError::FileNotFound(string_of(c.as_slice()))
}

/// The error when the read-back configuration could not be written (its path
/// as shown).
pub fn readback_config_error(config_xml: &str) -> (r: LpmError)
    ensures
        r matches LpmError::Spft(m) && m@ == "readback_config.xml 생성 실패: "@ + config_xml@,
{
    let mut c = chars_of("readback_config.xml 생성 실패: ");
    append_str(&mut c, config_xml);
    LpmError::Spft(string_of(c.as_slice()))
}

} // verus!
