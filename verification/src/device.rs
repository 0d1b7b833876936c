//! The decisions and the texts of talking to a tablet over ADB and Fastboot,
//! of finding it in PreLoader mode, and of the Windows runtime and driver
//! checks.
use vstd::prelude::*;
use crate::guard::{opt_str_view, opt_view};
use crate::model::{LpmError, PreloaderDetectResult, RomRegion};
use crate::text::{
    append, append_str, eq_ignore_case, ascii_lower, ascii_lower_vec, ascii_upper, ascii_upper_vec, chars_eq,
    chars_eq_str, chars_of, contains, contains_exec, contains_str, dec, dec_exec, find, find_exec,
    lemma_find_from, lines, lines_exec, parse_uint, parse_uint_exec, split_char, split_char_exec,
    split_once, split_once_exec, starts_with, starts_with_exec, string_of, string_views, subvec,
    to_lowercase, to_uppercase, trim, trim_start_char, trim_start_char_exec, trim_vec,
    unicode_lower, unicode_upper, views, utf8_decode, utf8_lossy, from_utf8_lossy,
};
use vstd::utf8::{decode_utf8, valid_utf8};

verus! {

/// What is shown for a value that is not known.
pub open spec fn unknown() -> Seq<char> {
    "알 수 없음"@
}

fn unknown_string() -> (r: String)
    ensures
        r@ == unknown(),
{
    let c = chars_of("알 수 없음");
    string_of(c.as_slice())
}

/// The region a device property names: `PRC` or `CN` is China, `ROW` the
/// rest of the world (the trimmed value in Unicode upper case).
pub open spec fn region_of_prop(value: Seq<char>) -> RomRegion {
    let u = unicode_upper(trim(value));
    if u == "PRC"@ || u == "CN"@ {
        RomRegion::Prc
    } else if u == "ROW"@ {
        RomRegion::Row
    } else {
        RomRegion::Unknown
    }
}

/// The region a device property names.
pub fn normalize_region(value: &str) -> (r: RomRegion)
    ensures
        r == region_of_prop(value@),
{
    let v = chars_of(value);
    let t = trim_vec(v.as_slice());
    let u = to_uppercase(t.as_slice());
    if chars_eq_str(u.as_slice(), "PRC") || chars_eq_str(u.as_slice(), "CN") {
        RomRegion::Prc
    } else if chars_eq_str(u.as_slice(), "ROW") {
        RomRegion::Row
    } else {
        RomRegion::Unknown
    }
}

/// How a region is shown.
pub open spec fn region_text(region: RomRegion) -> Seq<char> {
    match region {
        RomRegion::Prc => "PRC(중국 내수롬)"@,
        RomRegion::Row => "ROW(글로벌롬)"@,
        RomRegion::Unknown => "Unknown"@,
    }
}

/// How a region is shown.
pub fn region_label(region: RomRegion) -> (r: &'static str)
    ensures
        r@ == region_text(region),
{
    match region {
        RomRegion::Prc => "PRC(중국 내수롬)",
        RomRegion::Row => "ROW(글로벌롬)",
        RomRegion::Unknown => "Unknown",
    }
}

/// A value trimmed, or none when that leaves nothing.
pub fn empty_to_none(value: String) -> (r: Option<String>)
    ensures
        match r {
            Some(s) => s@ == trim(value@) && s@.len() > 0,
            None => trim(value@).len() == 0,
        },
{
    let v = chars_of(value.as_str());
    let t = trim_vec(v.as_slice());
    if t.len() == 0 {
        None
    } else {
        Some(string_of(t.as_slice()))
    }
}

/// The prefix that marks a log line as the frame of a spinner.
pub open spec fn spinner_prefix() -> Seq<char> {
    "\u{001e}LPMBOX_SPINNER\u{001f}"@
}

/// The log line that shows `message` as the state of spinner `key`.
pub open spec fn spinner_text(key: Seq<char>, message: Seq<char>) -> Seq<char> {
    spinner_prefix() + key + "|"@ + message
}

/// A log line that shows `message` as the state of spinner `key`.
pub fn spinner_log(key: &str, message: &str) -> (r: String)
    ensures
        r@ == spinner_text(key@, message@),
{
    let mut c = chars_of("\u{001e}LPMBOX_SPINNER\u{001f}");
    append_str(&mut c, key);
    append_str(&mut c, "|");
    append_str(&mut c, message);
    string_of(c.as_slice())
}

/// Texts of the errors that mean the device dropped the connection because
/// it went down to reboot.
pub open spec fn dropped_markers() -> Seq<Seq<char>> {
    seq![
        "pipe"@,
        "broken pipe"@,
        "no device"@,
        "device disconnected"@,
        "unexpected eof"@,
        "end of file"@,
        "i/o error"@,
        "input/output error"@,
        "closed"@,
        "reset"@,
    ]
}

/// Whether an error of a reboot request only says that the device went down
/// to reboot (the text in ASCII lower case names one of the markers).
pub open spec fn dropped_after_reboot(message: Seq<char>) -> bool {
    exists|i: int|
        0 <= i < dropped_markers().len() && contains(ascii_lower(message), dropped_markers()[i])
}

/// Whether an error of a reboot request only says that the device went down.
pub fn is_adbd_dropped_after_reboot(message: &str) -> (b: bool)
    ensures
        b == dropped_after_reboot(message@),
{
    let m = chars_of(message);
    let lower = ascii_lower_vec(m.as_slice());
    let markers = vec![
        "pipe",
        "broken pipe",
        "no device",
        "device disconnected",
        "unexpected eof",
        "end of file",
        "i/o error",
        "input/output error",
        "closed",
        "reset",
    ];
    assert(markers@.map_values(|x: &'static str| x@) =~= dropped_markers());
    let mut i: usize = 0;
    while i < markers.len()
        invariant
            i <= markers@.len(),
            markers@.map_values(|x: &'static str| x@) == dropped_markers(),
            lower@ == ascii_lower(message@),
            forall|j: int| 0 <= j < i ==> !contains(lower@, dropped_markers()[j]),
        decreases markers.len() - i,
    {
        assert(markers@[i as int]@ == dropped_markers()[i as int]);
        if contains_str(lower.as_slice(), markers[i]) {
            return true;
        }
        i = i + 1;
    }
    false
}

/// The slot a `slot_suffix`/`current-slot` value names: `_a` for `a` or
/// `_a`, `_b` for `b` or `_b` (after trimming).
pub open spec fn slot_suffix_of(value: Seq<char>) -> Option<Seq<char>> {
    let t = trim(value);
    if t == "_a"@ || t == "a"@ {
        Some("_a"@)
    } else if t == "_b"@ || t == "b"@ {
        Some("_b"@)
    } else {
        None
    }
}

/// The slot a `slot_suffix`/`current-slot` value names.
pub fn normalize_slot_suffix(value: &str) -> (r: Option<String>)
    ensures
        opt_view(r) == slot_suffix_of(value@),
{
    let v = chars_of(value);
    let t = trim_vec(v.as_slice());
    if chars_eq_str(t.as_slice(), "_a") || chars_eq_str(t.as_slice(), "a") {
        let s = chars_of("_a");
        Some(string_of(s.as_slice()))
    } else if chars_eq_str(t.as_slice(), "_b") || chars_eq_str(t.as_slice(), "b") {
        let s = chars_of("_b");
        Some(string_of(s.as_slice()))
    } else {
        None
    }
}

/// A value as the dashboard shows it: trimmed, or unknown when empty.
pub open spec fn display_text(value: Seq<char>) -> Seq<char> {
    if trim(value).len() == 0 {
        unknown()
    } else {
        trim(value)
    }
}

/// A value as the dashboard shows it.
pub fn dashboard_display_value(value: &str) -> (r: String)
    ensures
        r@ == display_text(value@),
{
    let v = chars_of(value);
    let t = trim_vec(v.as_slice());
    if t.len() == 0 {
        unknown_string()
    } else {
        string_of(t.as_slice())
    }
}

/// The chipset the dashboard shows: the chipset property, else the platform,
/// else unknown (each trimmed).
pub open spec fn ap_chipset_text(raw: Seq<char>, platform: Seq<char>) -> Seq<char> {
    if trim(raw).len() > 0 {
        trim(raw)
    } else if trim(platform).len() > 0 {
        trim(platform)
    } else {
        unknown()
    }
}

/// The chipset the dashboard shows.
pub fn dashboard_ap_chipset_label(ap_chipset_raw: &str, platform: &str) -> (r: String)
    ensures
        r@ == ap_chipset_text(ap_chipset_raw@, platform@),
{
    let a = chars_of(ap_chipset_raw);
    let ta = trim_vec(a.as_slice());
    let p = chars_of(platform);
    let tp = trim_vec(p.as_slice());
    if ta.len() > 0 {
        string_of(ta.as_slice())
    } else if tp.len() > 0 {
        string_of(tp.as_slice())
    } else {
        unknown_string()
    }
}

/// The OTA state the dashboard shows, by the installed ROM's region and
/// whether the OTA package is present.
pub open spec fn ota_status_text(installed_rom_raw: Seq<char>, has_ota_package: bool) -> Seq<char> {
    match region_of_prop(installed_rom_raw) {
        RomRegion::Row => if has_ota_package {
            "차단 필요"@
        } else {
            "차단 완료"@
        },
        RomRegion::Prc => if has_ota_package {
            "사용 중"@
        } else {
            "사용 하지 않음"@
        },
        RomRegion::Unknown => if has_ota_package {
            "감지됨"@
        } else {
            unknown()
        },
    }
}

/// The OTA state the dashboard shows.
pub fn dashboard_ota_status_label(installed_rom_raw: &str, has_ota_package: bool) -> (r: String)
    ensures
        r@ == ota_status_text(installed_rom_raw@, has_ota_package),
{
    let t: &str = match normalize_region(installed_rom_raw) {
        RomRegion::Row => if has_ota_package {
            "차단 필요"
        } else {
            "차단 완료"
        },
        RomRegion::Prc => if has_ota_package {
            "사용 중"
        } else {
            "사용 하지 않음"
        },
        RomRegion::Unknown => if has_ota_package {
            "감지됨"
        } else {
            "알 수 없음"
        },
    };
    let c = chars_of(t);
    string_of(c.as_slice())
}

/// The slot the dashboard shows: trimmed, without leading `_`, in Unicode
/// upper case; unknown when empty.
pub open spec fn slot_text(value: Seq<char>) -> Seq<char> {
    let v = trim_start_char(trim(value), '_');
    if v.len() == 0 {
        unknown()
    } else {
        unicode_upper(v)
    }
}

/// The slot the dashboard shows.
pub fn dashboard_slot_label(value: &str) -> (r: String)
    ensures
        r@ == slot_text(value@),
{
    let c = chars_of(value);
    let t = trim_vec(c.as_slice());
    let v = trim_start_char_exec(t.as_slice(), '_');
    if v.len() == 0 {
        unknown_string()
    } else {
        let u = to_uppercase(v.as_slice());
        string_of(u.as_slice())
    }
}

/// The model the dashboard shows: the display name and the device name
/// (each trimmed), the latter in parentheses unless the former holds it.
pub open spec fn model_text(display: Seq<char>, device: Seq<char>) -> Seq<char> {
    let d = trim(display);
    let v = trim(device);
    if d.len() == 0 && v.len() == 0 {
        unknown()
    } else if v.len() == 0 {
        d
    } else if d.len() == 0 {
        v
    } else if contains(d, v) {
        d
    } else {
        d + " ("@ + v + ")"@
    }
}

/// The model the dashboard shows.
pub fn dashboard_model_label(product_display: &str, product_device: &str) -> (r: String)
    ensures
        r@ == model_text(product_display@, product_device@),
{
    let a = chars_of(product_display);
    let d = trim_vec(a.as_slice());
    let b = chars_of(product_device);
    let v = trim_vec(b.as_slice());
    if d.len() == 0 && v.len() == 0 {
        unknown_string()
    } else if v.len() == 0 {
        string_of(d.as_slice())
    } else if d.len() == 0 {
        string_of(v.as_slice())
    } else if contains_exec(d.as_slice(), v.as_slice()) {
        string_of(d.as_slice())
    } else {
        let mut r = d;
        append_str(&mut r, " (");
        append(&mut r, v.as_slice());
        append_str(&mut r, ")");
        string_of(r.as_slice())
    }
}

/// The ROM the dashboard shows for a region property.
pub open spec fn rom_text(value: Seq<char>) -> Seq<char> {
    match region_of_prop(value) {
        RomRegion::Prc => "PRC(중국 내수롬)"@,
        RomRegion::Row => "ROW(글로벌롬)"@,
        RomRegion::Unknown => display_text(value),
    }
}

/// The ROM the dashboard shows for a region property.
pub fn dashboard_rom_label(value: &str) -> (r: String)
    ensures
        r@ == rom_text(value@),
{
    match normalize_region(value) {
        RomRegion::Prc => {
            let c = chars_of("PRC(중국 내수롬)");
            string_of(c.as_slice())
        },
        RomRegion::Row => {
            let c = chars_of("ROW(글로벌롬)");
            string_of(c.as_slice())
        },
        RomRegion::Unknown => dashboard_display_value(value),
    }
}


/// The version segment of a build id that starts at `prefix`: from its first
/// occurrence up to and including the first `_ST` after it.
pub open spec fn segment_after(value: Seq<char>, prefix: Seq<char>) -> Option<Seq<char>> {
    match find(value, prefix) {
        None => None,
        Some(start) => {
            let tail = value.subrange(start, value.len() as int);
            match find(tail, "_ST"@) {
                None => None,
                Some(end) => Some(tail.subrange(0, end + 3)),
            }
        },
    }
}

/// The ZUI version segment of a build id, such as `ZUI_16.0.123_ST` in
/// `TB375FC_ZUI_16.0.123_ST_250101`: for `ZUI_`, else `ZUXOS_`, else `ZUX1_`.
pub open spec fn zui_segment(value: Seq<char>) -> Option<Seq<char>> {
    match segment_after(value, "ZUI_"@) {
        Some(s) => Some(s),
        None => match segment_after(value, "ZUXOS_"@) {
            Some(s) => Some(s),
            None => segment_after(value, "ZUX1_"@),
        },
    }
}

fn segment_after_exec(value: &[char], prefix: &str) -> (r: Option<Vec<char>>)
    ensures
        match r {
            Some(v) => segment_after(value@, prefix@) == Some(v@),
            None => segment_after(value@, prefix@) is None,
        },
{
    let p = chars_of(prefix);
    match find_exec(value, p.as_slice()) {
        None => None,
        Some(start) => {
            proof {
                lemma_find_from(value@, p@, 0);
            }
            let n = value.len();
            assert(start <= n);
            let tail = subvec(value, start, n);
            let st = chars_of("_ST");
            match find_exec(tail.as_slice(), st.as_slice()) {
                None => None,
                Some(end) => {
                    proof {
                        lemma_find_from(tail@, st@, 0);
                        reveal_strlit("_ST");
                    }
                    let tn = tail.len();
                    assert(end + 3 <= tn);
                    Some(subvec(tail.as_slice(), 0, end + 3))
                },
            }
        },
    }
}

/// The ZUI version segment of a build id.
pub fn extract_zui_version_segment(value: &str) -> (r: Option<String>)
    ensures
        opt_view(r) == zui_segment(value@),
{
    let v = chars_of(value);
    match segment_after_exec(v.as_slice(), "ZUI_") {
        Some(s) => Some(string_of(s.as_slice())),
        None => match segment_after_exec(v.as_slice(), "ZUXOS_") {
            Some(s) => Some(string_of(s.as_slice())),
            None => match segment_after_exec(v.as_slice(), "ZUX1_") {
                Some(s) => Some(string_of(s.as_slice())),
                None => None,
            },
        },
    }
}

/// The firmware version the dashboard shows for a build id: its ZUI segment,
/// else the trimmed id, else unknown.
pub open spec fn firmware_version_text(build_display_id: Seq<char>) -> Seq<char> {
    let t = trim(build_display_id);
    if t.len() == 0 {
        unknown()
    } else {
        match zui_segment(t) {
            Some(s) => s,
            None => t,
        }
    }
}

/// The firmware version the dashboard shows for a build id.
pub fn dashboard_firmware_version_label(build_display_id: &str) -> (r: String)
    ensures
        r@ == firmware_version_text(build_display_id@),
{
    let c = chars_of(build_display_id);
    let t = trim_vec(c.as_slice());
    if t.len() == 0 {
        return unknown_string();
    }
    let ts = string_of(t.as_slice());
    match extract_zui_version_segment(ts.as_str()) {
        Some(s) => s,
        None => ts,
    }
}

/// The first of `ls` that, in Unicode lower case, holds `pat`.
pub open spec fn first_line_lower_holding(ls: Seq<Seq<char>>, pat: Seq<char>) -> Option<Seq<char>>
    decreases ls.len(),
{
    if ls.len() == 0 {
        None
    } else if contains(unicode_lower(ls[0]), pat) {
        Some(ls[0])
    } else {
        first_line_lower_holding(ls.drop_first(), pat)
    }
}

/// The Widevine level the dashboard shows, from the security-level property
/// and the DRM dump (whose first line naming `default_security_level`
/// counts): L1 when either says level 1, else L3 when either says level 3 or
/// anything at all, else unknown. Both are read in Unicode upper case.
pub open spec fn widevine_text(prop_value: Seq<char>, drm_dump: Seq<char>) -> Seq<char> {
    let prop = unicode_upper(trim(prop_value));
    let line = unicode_upper(
        match first_line_lower_holding(lines(drm_dump), "default_security_level"@) {
            Some(l) => l,
            None => Seq::<char>::empty(),
        },
    );
    let prop_l1 = prop == "1"@ || prop == "L1"@ || contains(prop, "LEVEL_1"@);
    let prop_l3 = prop == "3"@ || prop == "L3"@ || contains(prop, "LEVEL_3"@);
    let dump_l1 = contains(line, "L1"@) || contains(line, "LEVEL_1"@) || contains(
        line,
        "HW_SECURE"@,
    );
    let dump_l3 = contains(line, "L3"@) || contains(line, "LEVEL_3"@) || contains(
        line,
        "SW_SECURE"@,
    );
    if prop_l1 || dump_l1 {
        "L1"@
    } else if prop_l3 || dump_l3 {
        "L3"@
    } else if prop.len() > 0 || line.len() > 0 {
        "L3"@
    } else {
        unknown()
    }
}

fn first_line_lower_holding_exec(text: &[char], pat: &str) -> (r: Vec<char>)
    ensures
        r@ == match first_line_lower_holding(lines(text@), pat@) {
            Some(l) => l,
            None => Seq::<char>::empty(),
        },
{
    let ls = lines_exec(text);
    let ghost all = lines(text@);
    let pc = chars_of(pat);
    let mut i: usize = 0;
    assert(all.subrange(0, all.len() as int) =~= all);
    while i < ls.len()
        invariant
            i <= ls@.len(),
            views(ls@) == all,
            all == lines(text@),
            pc@ == pat@,
            first_line_lower_holding(all, pat@) == first_line_lower_holding(
                all.subrange(i as int, all.len() as int),
                pat@,
            ),
        decreases ls.len() - i,
    {
        let ghost rest = all.subrange(i as int, all.len() as int);
        assert(rest.drop_first() =~= all.subrange(i + 1, all.len() as int));
        assert(rest[0] == ls@[i as int]@);
        let low = to_lowercase(ls[i].as_slice());
        if contains_exec(low.as_slice(), pc.as_slice()) {
            return subvec(ls[i].as_slice(), 0, ls[i].len());
        }
        i = i + 1;
    }
    Vec::new()
}

/// The Widevine level the dashboard shows.
pub fn dashboard_widevine_label(prop_value: &str, drm_dump: &str) -> (r: String)
    ensures
        r@ == widevine_text(prop_value@, drm_dump@),
{
    let pv = chars_of(prop_value);
    let pt = trim_vec(pv.as_slice());
    let prop = to_uppercase(pt.as_slice());
    let dc = chars_of(drm_dump);
    let found = first_line_lower_holding_exec(dc.as_slice(), "default_security_level");
    let line = to_uppercase(found.as_slice());
    let p = prop.as_slice();
    let l = line.as_slice();
    let prop_l1 = chars_eq_str(p, "1") || chars_eq_str(p, "L1") || contains_str(p, "LEVEL_1");
    let prop_l3 = chars_eq_str(p, "3") || chars_eq_str(p, "L3") || contains_str(p, "LEVEL_3");
    let dump_l1 = contains_str(l, "L1") || contains_str(l, "LEVEL_1") || contains_str(l, "HW_SECURE");
    let dump_l3 = contains_str(l, "L3") || contains_str(l, "LEVEL_3") || contains_str(l, "SW_SECURE");
    let t: &str = if prop_l1 || dump_l1 {
        "L1"
    } else if prop_l3 || dump_l3 {
        "L3"
    } else if prop.len() > 0 || line.len() > 0 {
        "L3"
    } else {
        "알 수 없음"
    };
    let c = chars_of(t);
    string_of(c.as_slice())
}

/// A hardware board id with `-` and `.` read as `_`.
pub open spec fn underscored(s: Seq<char>) -> Seq<char> {
    Seq::new(
        s.len(),
        |i: int|
            if s[i] == '-' || s[i] == '.' {
                '_'
            } else {
                s[i]
            },
    )
}

/// The RAM sizes (in GB) boards are made with.
pub open spec fn valid_ram(v: Seq<char>) -> bool {
    v == "6"@ || v == "8"@ || v == "12"@ || v == "16"@
}

/// The storage sizes (in GB) boards are made with.
pub open spec fn valid_storage(v: Seq<char>) -> bool {
    v == "128"@ || v == "256"@ || v == "512"@
}

/// The `RAM+storage` pair a token names, if it names a known one.
pub open spec fn memory_pair_of_token(token: Seq<char>) -> Option<Seq<char>> {
    match split_once(token, '+') {
        None => None,
        Some((l, r)) => if valid_ram(trim(l)) && valid_storage(trim(r)) {
            Some(trim(l) + "+"@ + trim(r))
        } else {
            None
        },
    }
}

/// The first known pair among tokens.
pub open spec fn first_memory_pair(tokens: Seq<Seq<char>>) -> Option<Seq<char>>
    decreases tokens.len(),
{
    if tokens.len() == 0 {
        None
    } else {
        match memory_pair_of_token(tokens[0]) {
            Some(p) => Some(p),
            None => first_memory_pair(tokens.drop_first()),
        }
    }
}

/// The `RAM+storage` pair a hardware board id names, such as `8+256` in
/// `P1-8+256`: the first `_`-separated token (with `-` and `.` read as `_`)
/// that is a known pair.
pub open spec fn memory_pair(value: Seq<char>) -> Option<Seq<char>> {
    first_memory_pair(split_char(underscored(value), '_'))
}

fn memory_pair_of_token_exec(token: &[char]) -> (r: Option<Vec<char>>)
    ensures
        match r {
            Some(v) => memory_pair_of_token(token@) == Some(v@),
            None => memory_pair_of_token(token@) is None,
        },
{
    match split_once_exec(token, '+') {
        None => None,
        Some((l, r)) => {
            let ram = trim_vec(l.as_slice());
            let storage = trim_vec(r.as_slice());
            let ra = ram.as_slice();
            let st = storage.as_slice();
            let vr = chars_eq_str(ra, "6") || chars_eq_str(ra, "8") || chars_eq_str(ra, "12")
                || chars_eq_str(ra, "16");
            let vs = chars_eq_str(st, "128") || chars_eq_str(st, "256") || chars_eq_str(st, "512");
            if vr && vs {
                let mut out = subvec(ra, 0, ra.len());
                assert(ram@.subrange(0, ram@.len() as int) =~= ram@);
                append_str(&mut out, "+");
                append(&mut out, st);
                Some(out)
            } else {
                None
            }
        },
    }
}

/// The `RAM+storage` pair a hardware board id names.
pub fn extract_hw_memory_storage_pair(value: &str) -> (r: Option<String>)
    ensures
        opt_view(r) == memory_pair(value@),
{
    let v = chars_of(value);
    let mut norm: Vec<char> = Vec::new();
    let mut i: usize = 0;
    while i < v.len()
        invariant
            i <= v@.len(),
            norm@ =~= underscored(v@.subrange(0, i as int)),
        decreases v.len() - i,
    {
        let c = v[i];
        if c == '-' || c == '.' {
            norm.push('_');
        } else {
            norm.push(c);
        }
        i = i + 1;
    }
    assert(v@.subrange(0, i as int) =~= v@);
    let tokens = split_char_exec(norm.as_slice(), '_');
    let ghost ts = split_char(underscored(value@), '_');
    let mut k: usize = 0;
    assert(ts.subrange(0, ts.len() as int) =~= ts);
    while k < tokens.len()
        invariant
            k <= tokens@.len(),
            views(tokens@) == ts,
            ts == split_char(underscored(value@), '_'),
            first_memory_pair(ts) == first_memory_pair(ts.subrange(k as int, ts.len() as int)),
        decreases tokens.len() - k,
    {
        let ghost rest = ts.subrange(k as int, ts.len() as int);
        assert(rest.drop_first() =~= ts.subrange(k + 1, ts.len() as int));
        assert(rest[0] == tokens@[k as int]@);
        match memory_pair_of_token_exec(tokens[k].as_slice()) {
            Some(p) => {
                return Some(string_of(p.as_slice()));
            },
            None => {},
        }
        k = k + 1;
    }
    None
}

/// The hardware the dashboard shows: the memory pair of the trimmed board
/// id, else unknown.
pub open spec fn hwboard_text(value: Seq<char>) -> Seq<char> {
    if trim(value).len() == 0 {
        unknown()
    } else {
        match memory_pair(trim(value)) {
            Some(p) => p,
            None => unknown(),
        }
    }
}

/// The hardware the dashboard shows.
pub fn dashboard_hwboard_label(value: &str) -> (r: String)
    ensures
        r@ == hwboard_text(value@),
{
    let c = chars_of(value);
    let t = trim_vec(c.as_slice());
    if t.len() == 0 {
        return unknown_string();
    }
    let ts = string_of(t.as_slice());
    match extract_hw_memory_storage_pair(ts.as_str()) {
        Some(p) => p,
        None => unknown_string(),
    }
}


/// Whether a `pm list packages` output lists `package`: a line that, trimmed,
/// is `package:<package>` or holds the name.
pub open spec fn lists_package(output: Seq<char>, package: Seq<char>) -> bool {
    exists|i: int|
        0 <= i < lines(output).len() && (trim(lines(output)[i]) == "package:"@ + package
            || contains(trim(lines(output)[i]), package))
}

/// Whether a `pm list packages` output lists `package`.
pub fn dashboard_has_package(output: &str, package_name: &str) -> (b: bool)
    ensures
        b == lists_package(output@, package_name@),
{
    let o = chars_of(output);
    let pkg = chars_of(package_name);
    let mut full = chars_of("package:");
    append(&mut full, pkg.as_slice());
    let ls = lines_exec(o.as_slice());
    let ghost all = lines(output@);
    let mut i: usize = 0;
    while i < ls.len()
        invariant
            i <= ls@.len(),
            views(ls@) == all,
            all == lines(output@),
            pkg@ == package_name@,
            full@ == "package:"@ + package_name@,
            forall|j: int|
                0 <= j < i ==> !(trim(all[j]) == "package:"@ + package_name@ || contains(
                    trim(all[j]),
                    package_name@,
                )),
        decreases ls.len() - i,
    {
        assert(all[i as int] == ls@[i as int]@);
        let t = trim_vec(ls[i].as_slice());
        if chars_eq(t.as_slice(), full.as_slice()) || contains_exec(t.as_slice(), pkg.as_slice()) {
            return true;
        }
        i = i + 1;
    }
    false
}

/// The battery level a `dumpsys battery` output reports: on the first line
/// that, trimmed, starts with `level:` and has a `u8` after it (trimmed),
/// capped at 100.
pub open spec fn battery_in(ls: Seq<Seq<char>>) -> Option<nat>
    decreases ls.len(),
{
    if ls.len() == 0 {
        None
    } else {
        let l = trim(ls[0]);
        if starts_with(l, "level:"@) {
            match parse_uint(trim(l.subrange("level:"@.len() as int, l.len() as int)), 255) {
                Some(v) => Some(
                    if v <= 100 {
                        v
                    } else {
                        100
                    },
                ),
                None => battery_in(ls.drop_first()),
            }
        } else {
            battery_in(ls.drop_first())
        }
    }
}

/// The battery level a `dumpsys battery` output reports.
pub fn battery_level_from_dumpsys(output: &str) -> (r: Option<u8>)
    ensures
        match r {
            Some(v) => battery_in(lines(output@)) == Some(v as nat),
            None => battery_in(lines(output@)) is None,
        },
{
    let o = chars_of(output);
    let ls = lines_exec(o.as_slice());
    let ghost all = lines(output@);
    let prefix = chars_of("level:");
    let mut i: usize = 0;
    assert(all.subrange(0, all.len() as int) =~= all);
    while i < ls.len()
        invariant
            i <= ls@.len(),
            views(ls@) == all,
            all == lines(output@),
            prefix@ == "level:"@,
            battery_in(all) == battery_in(all.subrange(i as int, all.len() as int)),
        decreases ls.len() - i,
    {
        let ghost rest = all.subrange(i as int, all.len() as int);
        assert(rest.drop_first() =~= all.subrange(i + 1, all.len() as int));
        assert(rest[0] == ls@[i as int]@);
        let l = trim_vec(ls[i].as_slice());
        if starts_with_exec(l.as_slice(), prefix.as_slice()) {
            let after = subvec(l.as_slice(), prefix.len(), l.len());
            let value = trim_vec(after.as_slice());
            match parse_uint_exec(value.as_slice(), 255) {
                Some(v) => {
                    let level: u8 = if v <= 100 {
                        v as u8
                    } else {
                        100
                    };
                    return Some(level);
                },
                None => {},
            }
        }
        i = i + 1;
    }
    None
}

/// An uptime of `whole_seconds` as the dashboard shows it, in days, hours and
/// minutes.
pub open spec fn uptime_text(whole_seconds: nat) -> Seq<char> {
    dec(whole_seconds / 86400) + "일 "@ + dec((whole_seconds % 86400) / 3600) + "시간 "@ + dec(
        (whole_seconds % 3600) / 60,
    ) + "분"@
}

/// The days, hours and minutes an uptime is shown in recompose it to the
/// minute: hours under 24, minutes under 60, and the seconds left over under
/// 60.
pub proof fn lemma_uptime_recomposes(s: nat, d: nat, h: nat, m: nat)
    requires
        h < 24,
        m < 60,
        d * 86400 + h * 3600 + m * 60 <= s,
        s < d * 86400 + h * 3600 + m * 60 + 60,
    ensures
        uptime_text(s) == dec(d) + "일 "@ + dec(h) + "시간 "@ + dec(m) + "분"@,
{
    let r: int = s - d * 86400 - h * 3600 - m * 60;
    vstd::arithmetic::div_mod::lemma_fundamental_div_mod_converse(
        s as int,
        86400,
        d as int,
        h * 3600 + m * 60 + r,
    );
    vstd::arithmetic::div_mod::lemma_fundamental_div_mod_converse(
        h * 3600 + m * 60 + r,
        3600,
        h as int,
        m * 60 + r,
    );
    assert((d * 24 + h) * 3600 == d * 86400 + h * 3600) by (nonlinear_arith);
    vstd::arithmetic::div_mod::lemma_fundamental_div_mod_converse(
        s as int,
        3600,
        (d * 24 + h) as int,
        m * 60 + r,
    );
    vstd::arithmetic::div_mod::lemma_fundamental_div_mod_converse(m * 60 + r, 60, m as int, r);
}

/// An uptime of whole seconds as the dashboard shows it (the seconds come
/// from `/proc/uptime`, rounded down, negative or not finite as 0).
pub fn format_uptime_whole_seconds(whole_seconds: u64) -> (r: String)
    ensures
        r@ == uptime_text(whole_seconds as nat),
{
    let days = whole_seconds / 86_400;
    let hours = (whole_seconds % 86_400) / 3_600;
    let minutes = (whole_seconds % 3_600) / 60;
    let mut c = dec_exec(days);
    append_str(&mut c, "일 ");
    let h = dec_exec(hours);
    append(&mut c, h.as_slice());
    append_str(&mut c, "시간 ");
    let m = dec_exec(minutes);
    append(&mut c, m.as_slice());
    append_str(&mut c, "분");
    string_of(c.as_slice())
}


/// What the dashboard shows of a connected tablet.
#[derive(Debug, Clone)]
pub struct DashboardDeviceInfo {
    pub connected: bool,
    pub country_code: String,
    pub locale: String,
    pub serial_number: String,
    pub original_rom: String,
    pub model_name: String,
    pub product_device: String,
    pub platform: String,
    pub installed_rom: String,
    pub firmware_version: String,
    pub widevine_level: String,
    pub android_version: String,
    pub slot_suffix: String,
    pub hardware_info: String,
    pub battery_level: Option<u8>,
    pub uptime_display: String,
    pub ap_chipset: String,
    pub ota_status: String,
}

impl Default for DashboardDeviceInfo {
    /// No tablet: every text unknown.
    fn default() -> (r: Self)
        ensures
            !r.connected,
            r.country_code@ == unknown(),
            r.locale@ == unknown(),
            r.serial_number@ == unknown(),
            r.original_rom@ == unknown(),
            r.model_name@ == unknown(),
            r.product_device@ == unknown(),
            r.platform@ == unknown(),
            r.installed_rom@ == unknown(),
            r.firmware_version@ == unknown(),
            r.widevine_level@ == unknown(),
            r.android_version@ == unknown(),
            r.slot_suffix@ == unknown(),
            r.hardware_info@ == unknown(),
            r.battery_level is None,
            r.uptime_display@ == unknown(),
            r.ap_chipset@ == unknown(),
            r.ota_status@ == unknown(),
    {
        DashboardDeviceInfo {
            connected: false,
            country_code: unknown_string(),
            locale: unknown_string(),
            serial_number: unknown_string(),
            original_rom: unknown_string(),
            model_name: unknown_string(),
            product_device: unknown_string(),
            platform: unknown_string(),
            installed_rom: unknown_string(),
            firmware_version: unknown_string(),
            widevine_level: unknown_string(),
            android_version: unknown_string(),
            slot_suffix: unknown_string(),
            hardware_info: unknown_string(),
            battery_level: None,
            uptime_display: unknown_string(),
            ap_chipset: unknown_string(),
            ota_status: unknown_string(),
        }
    }
}

/// The raw properties and readings the dashboard is made from.
#[derive(Debug, Clone)]
pub struct DashboardProps {
    pub country_code: String,
    pub locale: String,
    /// The serial-number properties read, in order, until one was not empty
    /// (`ro.odm.lenovo.gsn`, `ro.boot.sn`, `ro.boot.gsn`, `ro.serialno`).
    pub serial_numbers: Vec<String>,
    pub original_rom_raw: String,
    pub product_display: String,
    pub product_device: String,
    pub platform: String,
    pub installed_rom_raw: String,
    pub build_display_id: String,
    pub widevine_prop: String,
    pub android_version: String,
    pub slot_suffix: String,
    pub hw_board_id: String,
    pub ap_chipset_raw: String,
    pub drm_widevine_dump: String,
    pub battery_level: Option<u8>,
    pub uptime_display: String,
    pub has_ota_package: bool,
}

/// The first serial number that is not empty once trimmed (empty if none is).
pub open spec fn serial_number_of(candidates: Seq<Seq<char>>) -> Seq<char>
    decreases candidates.len(),
{
    if candidates.len() == 0 {
        seq![]
    } else if trim(candidates[0]).len() > 0 {
        candidates[0]
    } else {
        serial_number_of(candidates.drop_first())
    }
}

/// The first serial number that is not empty once trimmed.
fn serial_number_exec(candidates: &Vec<String>) -> (r: Vec<char>)
    ensures
        r@ == serial_number_of(string_views(candidates@)),
{
    let n = candidates.len();
    let mut i: usize = 0;
    assert(string_views(candidates@).subrange(0, n as int) =~= string_views(candidates@));
    while i < n
        invariant
            n == candidates@.len(),
            i <= n,
            serial_number_of(string_views(candidates@)) == serial_number_of(
                string_views(candidates@).subrange(i as int, n as int),
            ),
        decreases n - i,
    {
        let ghost rest = string_views(candidates@).subrange(i as int, n as int);
        assert(rest.drop_first() =~= string_views(candidates@).subrange(i + 1, n as int));
        let c = chars_of(candidates[i].as_str());
        let t = trim_vec(c.as_slice());
        if t.len() > 0 {
            return c;
        }
        i = i + 1;
    }
    Vec::new()
}

/// `read_dashboard_device_info`: the dashboard of a connected tablet, from
/// the properties and readings taken from it.
pub fn read_dashboard_device_info(p: &DashboardProps) -> (r: DashboardDeviceInfo)
    ensures
        r.connected,
        r.country_code@ == display_text(p.country_code@),
        r.locale@ == display_text(p.locale@),
        r.serial_number@ == display_text(serial_number_of(string_views(p.serial_numbers@))),
        r.original_rom@ == rom_text(p.original_rom_raw@),
        r.model_name@ == model_text(p.product_display@, p.product_device@),
        r.product_device@ == display_text(p.product_device@),
        r.platform@ == display_text(p.platform@),
        r.installed_rom@ == rom_text(p.installed_rom_raw@),
        r.firmware_version@ == firmware_version_text(p.build_display_id@),
        r.widevine_level@ == widevine_text(p.widevine_prop@, p.drm_widevine_dump@),
        r.android_version@ == display_text(p.android_version@),
        r.slot_suffix@ == slot_text(p.slot_suffix@),
        r.hardware_info@ == hwboard_text(p.hw_board_id@),
        r.battery_level == p.battery_level,
        r.uptime_display@ == p.uptime_display@,
        r.ap_chipset@ == ap_chipset_text(p.ap_chipset_raw@, p.platform@),
        r.ota_status@ == ota_status_text(p.installed_rom_raw@, p.has_ota_package),
{
    let up = chars_of(p.uptime_display.as_str());
    let serial = serial_number_exec(&p.serial_numbers);
    let serial_s = string_of(serial.as_slice());
    DashboardDeviceInfo {
        connected: true,
        country_code: dashboard_display_value(p.country_code.as_str()),
        locale: dashboard_display_value(p.locale.as_str()),
        serial_number: dashboard_display_value(serial_s.as_str()),
        original_rom: dashboard_rom_label(p.original_rom_raw.as_str()),
        model_name: dashboard_model_label(p.product_display.as_str(), p.product_device.as_str()),
        product_device: dashboard_display_value(p.product_device.as_str()),
        platform: dashboard_display_value(p.platform.as_str()),
        installed_rom: dashboard_rom_label(p.installed_rom_raw.as_str()),
        firmware_version: dashboard_firmware_version_label(p.build_display_id.as_str()),
        widevine_level: dashboard_widevine_label(
            p.widevine_prop.as_str(),
            p.drm_widevine_dump.as_str(),
        ),
        android_version: dashboard_display_value(p.android_version.as_str()),
        slot_suffix: dashboard_slot_label(p.slot_suffix.as_str()),
        hardware_info: dashboard_hwboard_label(p.hw_board_id.as_str()),
        battery_level: p.battery_level,
        uptime_display: string_of(up.as_slice()),
        ap_chipset: dashboard_ap_chipset_label(p.ap_chipset_raw.as_str(), p.platform.as_str()),
        ota_status: dashboard_ota_status_label(p.installed_rom_raw.as_str(), p.has_ota_package),
    }
}

/// The names a PreLoader-mode device is listed under.
pub open spec fn preloader_token_texts() -> Seq<Seq<char>> {
    seq![
        "MediaTek PreLoader USB VCOM (Android)"@,
        "MediaTek PreLoader USB VCOM"@,
        "MediaTek PreLoader USB"@,
        "MediaTek PreLoader"@,
        "MediaTek"@,
        "PreLoader"@,
    ]
}

fn preloader_token_list() -> (r: Vec<&'static str>)
    ensures
        r@.map_values(|x: &'static str| x@) == preloader_token_texts(),
{
    let r = vec![
        "MediaTek PreLoader USB VCOM (Android)",
        "MediaTek PreLoader USB VCOM",
        "MediaTek PreLoader USB",
        "MediaTek PreLoader",
        "MediaTek",
        "PreLoader",
    ];
    assert(r@.map_values(|x: &'static str| x@) =~= preloader_token_texts());
    r
}

/// The names a PreLoader-mode device is listed under.
pub fn preloader_tokens() -> (r: Vec<String>)
    ensures
        string_views(r@) == preloader_token_texts(),
{
    let ts = preloader_token_list();
    let mut r: Vec<String> = Vec::new();
    let mut i: usize = 0;
    while i < ts.len()
        invariant
            i <= ts@.len(),
            ts@.map_values(|x: &'static str| x@) == preloader_token_texts(),
            string_views(r@) == preloader_token_texts().subrange(0, i as int),
        decreases ts.len() - i,
    {
        let c = chars_of(ts[i]);
        assert(c@ == preloader_token_texts()[i as int]);
        let ghost before = r@;
        r.push(string_of(c.as_slice()));
        assert(string_views(r@) =~= string_views(before).push(c@));
        assert(string_views(r@) =~= preloader_token_texts().subrange(0, i + 1));
        i = i + 1;
    }
    assert(preloader_token_texts().subrange(0, 6) =~= preloader_token_texts());
    r
}

/// Whether a device line names a PreLoader-mode device: in Unicode upper
/// case, it holds one of the names in Unicode upper case.
pub open spec fn names_preloader(line: Seq<char>) -> bool {
    exists|i: int|
        0 <= i < preloader_token_texts().len() && contains(
            unicode_upper(line),
            unicode_upper(preloader_token_texts()[i]),
        )
}

/// Whether a device line names a PreLoader-mode device.
pub fn contains_preloader_token(line: &str) -> (b: bool)
    ensures
        b == names_preloader(line@),
{
    let l = chars_of(line);
    let upper = to_uppercase(l.as_slice());
    let ts = preloader_token_list();
    let mut i: usize = 0;
    while i < ts.len()
        invariant
            i <= ts@.len(),
            ts@.map_values(|x: &'static str| x@) == preloader_token_texts(),
            upper@ == unicode_upper(line@),
            forall|j: int|
                0 <= j < i ==> !contains(
                    unicode_upper(line@),
                    unicode_upper(preloader_token_texts()[j]),
                ),
        decreases ts.len() - i,
    {
        let tc = chars_of(ts[i]);
        assert(tc@ == preloader_token_texts()[i as int]);
        let tu = to_uppercase(tc.as_slice());
        if contains_exec(upper.as_slice(), tu.as_slice()) {
            return true;
        }
        i = i + 1;
    }
    false
}

/// A device line as it is shown: trimmed, without a leading `Name=` (and the
/// rest trimmed again).
pub open spec fn cleaned_device_line(line: Seq<char>) -> Seq<char> {
    let t = trim(line);
    if starts_with(t, "Name="@) {
        trim(t.subrange("Name="@.len() as int, t.len() as int))
    } else {
        t
    }
}

/// A device line as it is shown.
pub fn clean_device_line(line: &str) -> (r: String)
    ensures
        r@ == cleaned_device_line(line@),
{
    let l = chars_of(line);
    let t = trim_vec(l.as_slice());
    let p = chars_of("Name=");
    if starts_with_exec(t.as_slice(), p.as_slice()) {
        let rest = subvec(t.as_slice(), p.len(), t.len());
        let r = trim_vec(rest.as_slice());
        string_of(r.as_slice())
    } else {
        string_of(t.as_slice())
    }
}

/// The first line, trimmed and not empty, that names a PreLoader-mode
/// device, cleaned.
pub open spec fn first_preloader_line(ls: Seq<Seq<char>>) -> Option<Seq<char>>
    decreases ls.len(),
{
    if ls.len() == 0 {
        None
    } else {
        let t = trim(ls[0]);
        if t.len() > 0 && names_preloader(t) {
            Some(cleaned_device_line(t))
        } else {
            first_preloader_line(ls.drop_first())
        }
    }
}

/// The device a device listing names in PreLoader mode, if any.
pub fn find_matching_line(text: &str) -> (r: Option<String>)
    ensures
        opt_view(r) == first_preloader_line(lines(text@)),
{
    let c = chars_of(text);
    let ls = lines_exec(c.as_slice());
    let ghost all = lines(text@);
    let mut i: usize = 0;
    assert(all.subrange(0, all.len() as int) =~= all);
    while i < ls.len()
        invariant
            i <= ls@.len(),
            views(ls@) == all,
            all == lines(text@),
            first_preloader_line(all) == first_preloader_line(
                all.subrange(i as int, all.len() as int),
            ),
        decreases ls.len() - i,
    {
        let ghost rest = all.subrange(i as int, all.len() as int);
        assert(rest.drop_first() =~= all.subrange(i + 1, all.len() as int));
        assert(rest[0] == ls@[i as int]@);
        let t = trim_vec(ls[i].as_slice());
        if t.len() > 0 {
            let ts = string_of(t.as_slice());
            if contains_preloader_token(ts.as_str()) {
                return Some(clean_device_line(ts.as_str()));
            }
        }
        i = i + 1;
    }
    None
}

/// The outcome of a PreLoader search where it is not supported (outside
/// Windows).
pub fn preloader_unsupported_result() -> (r: PreloaderDetectResult)
    ensures
        !r.detected,
        r.display_name is None,
        opt_view(r.method) == Some("Windows 전용 감지"@),
        string_views(r.checked_tokens@) == preloader_token_texts(),
{
    let m = chars_of("Windows 전용 감지");
    PreloaderDetectResult {
        detected: false,
        display_name: None,
        method: Some(string_of(m.as_slice())),
        checked_tokens: preloader_tokens(),
    }
}

/// The outcome of one PreLoader search, given the device it found.
pub fn preloader_found_result(found: Option<String>) -> (r: PreloaderDetectResult)
    ensures
        r.detected == found is Some,
        opt_view(r.display_name) == opt_view(found),
        r.method is None,
        string_views(r.checked_tokens@) == preloader_token_texts(),
{
    PreloaderDetectResult {
        detected: found.is_some(),
        display_name: found,
        method: None,
        checked_tokens: preloader_tokens(),
    }
}

/// The outcome of a PreLoader search that ran out of time.
pub fn preloader_timeout_result(timeout_secs: u64) -> (r: PreloaderDetectResult)
    ensures
        !r.detected,
        r.display_name is None,
        opt_view(r.method) == Some(dec(timeout_secs as nat) + "초 제한 시간 초과"@),
        string_views(r.checked_tokens@) == preloader_token_texts(),
{
    let mut m = dec_exec(timeout_secs);
    append_str(&mut m, "초 제한 시간 초과");
    PreloaderDetectResult {
        detected: false,
        display_name: None,
        method: Some(string_of(m.as_slice())),
        checked_tokens: preloader_tokens(),
    }
}


/// The commands that stop running adb and fastboot programs (on Windows; none
/// elsewhere), each as program then arguments.
pub open spec fn terminate_commands(on_windows: bool) -> Seq<Seq<Seq<char>>> {
    if on_windows {
        seq![
            seq!["taskkill"@, "/F"@, "/IM"@, "adb.exe"@],
            seq!["taskkill"@, "/F"@, "/IM"@, "fastboot.exe"@],
        ]
    } else {
        seq![]
    }
}

/// `v` with one more part.
fn push_part(v: &mut Vec<String>, part: &str)
    ensures
        string_views(final(v)@) == string_views(old(v)@).push(part@),
{
    let s = part.to_string();
    assert(s@ == part@);
    v.push(s);
    assert(string_views(final(v)@) =~= string_views(old(v)@).push(part@));
}

/// The views of a list of command lines.
pub open spec fn command_views(v: Seq<Vec<String>>) -> Seq<Seq<Seq<char>>> {
    v.map_values(|c: Vec<String>| string_views(c@))
}

/// `terminate_adb_fastboot_processes`: the commands to run, in order.
pub fn terminate_adb_fastboot_processes(on_windows: bool) -> (r: Vec<Vec<String>>)
    ensures
        command_views(r@) == terminate_commands(on_windows),
{
    let mut r: Vec<Vec<String>> = Vec::new();
    if on_windows {
        let mut a: Vec<String> = Vec::new();
        push_part(&mut a, "taskkill");
        push_part(&mut a, "/F");
        push_part(&mut a, "/IM");
        push_part(&mut a, "adb.exe");
        let mut f: Vec<String> = Vec::new();
        push_part(&mut f, "taskkill");
        push_part(&mut f, "/F");
        push_part(&mut f, "/IM");
        push_part(&mut f, "fastboot.exe");
        assert(string_views(a@) =~= seq!["taskkill"@, "/F"@, "/IM"@, "adb.exe"@]);
        assert(string_views(f@) =~= seq!["taskkill"@, "/F"@, "/IM"@, "fastboot.exe"@]);
        r.push(a);
        r.push(f);
        assert(command_views(r@) =~= terminate_commands(on_windows));
    } else {
        assert(command_views(r@) =~= terminate_commands(on_windows));
    }
    r
}

/// The commands that list connected devices to look for one in PreLoader
/// mode, tried in order, each as program then arguments.
pub open spec fn preloader_search_commands() -> Seq<Seq<Seq<char>>> {
    seq![
        seq!["pnputil"@, "/enum-devices"@, "/connected"@],
        seq![
            "wmic"@,
            "path"@,
            "Win32_PnPEntity"@,
            "where"@,
            "ConfigManagerErrorCode=0"@,
            "get"@,
            "Name"@,
            "/value"@,
        ],
    ]
}

/// The commands that list connected devices, in the order they are tried.
pub fn preloader_search_command_lines() -> (r: Vec<Vec<String>>)
    ensures
        command_views(r@) == preloader_search_commands(),
{
    let mut r: Vec<Vec<String>> = Vec::new();
    let mut a: Vec<String> = Vec::new();
    push_part(&mut a, "pnputil");
    push_part(&mut a, "/enum-devices");
    push_part(&mut a, "/connected");
    assert(string_views(a@) =~= seq!["pnputil"@, "/enum-devices"@, "/connected"@]);
    let mut w: Vec<String> = Vec::new();
    push_part(&mut w, "wmic");
    push_part(&mut w, "path");
    push_part(&mut w, "Win32_PnPEntity");
    push_part(&mut w, "where");
    push_part(&mut w, "ConfigManagerErrorCode=0");
    push_part(&mut w, "get");
    push_part(&mut w, "Name");
    push_part(&mut w, "/value");
    assert(string_views(w@) =~= seq![
        "wmic"@,
        "path"@,
        "Win32_PnPEntity"@,
        "where"@,
        "ConfigManagerErrorCode=0"@,
        "get"@,
        "Name"@,
        "/value"@,
    ]);
    r.push(a);
    r.push(w);
    assert(command_views(r@) =~= preloader_search_commands());
    r
}

/// The device line the first search whose output names a PreLoader device
/// found, cleaned (searches that could not run count as finding nothing).
pub open spec fn first_found_preloader(outputs: Seq<Option<Seq<char>>>) -> Option<Seq<char>>
    decreases outputs.len(),
{
    if outputs.len() == 0 {
        None
    } else {
        match outputs[0] {
            Some(t) if first_preloader_line(lines(t)) is Some => first_preloader_line(lines(t)),
            _ => first_found_preloader(outputs.drop_first()),
        }
    }
}

/// `detect_preloader_once`, from the outputs of the searches that were run,
/// in order (`None` for one that could not be run): off Windows nothing is
/// searched; on Windows the first device line found is the result.
pub fn detect_preloader_once(on_windows: bool, outputs: &Vec<Option<String>>) -> (r: PreloaderDetectResult)
    ensures
        string_views(r.checked_tokens@) == preloader_token_texts(),
        !on_windows ==> !r.detected && r.display_name is None && opt_view(r.method) == Some(
            "Windows 전용 감지"@,
        ),
        on_windows ==> {
            let found = first_found_preloader(opt_views(outputs@));
            &&& r.detected == found is Some
            &&& opt_view(r.display_name) == found
            &&& r.method is None
        },
{
    if !on_windows {
        return preloader_unsupported_result();
    }
    let n = outputs.len();
    let mut i: usize = 0;
    let ghost all = opt_views(outputs@);
    assert(all.subrange(0, n as int) =~= all);
    while i < n
        invariant
            on_windows,
            n == outputs@.len(),
            i <= n,
            all == opt_views(outputs@),
            first_found_preloader(all) == first_found_preloader(all.subrange(i as int, n as int)),
        decreases n - i,
    {
        let ghost rest = all.subrange(i as int, n as int);
        assert(rest.drop_first() =~= all.subrange(i + 1, n as int));
        match &outputs[i] {
            Some(t) => {
                let found = find_matching_line(t.as_str());
                if found.is_some() {
                    return preloader_found_result(found);
                }
            },
            None => {},
        }
        i = i + 1;
    }
    preloader_found_result(None)
}

/// One round of waiting for a PreLoader device: a result that found one is
/// final; once the deadline has passed, the timeout result is; otherwise
/// `None` asks to wait and search again.
pub fn preloader_poll_step(result: PreloaderDetectResult, deadline_passed: bool, timeout_secs: u64) -> (r:
    Option<PreloaderDetectResult>)
    ensures
        result.detected ==> r == Some(result),
        !result.detected && !deadline_passed ==> r is None,
        !result.detected && deadline_passed ==> (r matches Some(t) && !t.detected && t.display_name is None
            && opt_view(t.method) == Some(dec(timeout_secs as nat) + "초 제한 시간 초과"@)
            && string_views(t.checked_tokens@) == preloader_token_texts()),
{
    if result.detected {
        Some(result)
    } else if deadline_passed {
        Some(preloader_timeout_result(timeout_secs))
    } else {
        None
    }
}

/// Which of the Microsoft Visual C++ runtimes are installed.
#[derive(Debug, Clone, Copy, PartialEq, Eq, Structural)]
pub struct VcRuntimeStatus {
    pub x86_installed: bool,
    pub x64_installed: bool,
}

impl VcRuntimeStatus {
    /// Whether both runtimes are installed.
    pub fn all_installed(self) -> (b: bool)
        ensures
            b == (self.x86_installed && self.x64_installed),
    {
        self.x86_installed && self.x64_installed
    }
}

/// The text of a check script's output: its standard output followed by its
/// standard error, each decoded leniently.
pub open spec fn script_text(stdout: Seq<u8>, stderr: Seq<u8>) -> Seq<char> {
    utf8_lossy(stdout) + utf8_lossy(stderr)
}

/// `check_vc_runtime_installed`, from the check script's output (`None` when
/// the script could not be run): off Windows both runtimes count as
/// installed; on Windows each is installed when its marker is in the output.
pub fn check_vc_runtime_installed(on_windows: bool, output: Option<(&[u8], &[u8])>) -> (r: Result<
    VcRuntimeStatus,
    LpmError,
>)
    ensures
        !on_windows ==> r == Ok::<VcRuntimeStatus, LpmError>(
            VcRuntimeStatus { x86_installed: true, x64_installed: true },
        ),
        on_windows ==> match output {
            None => r matches Err(LpmError::InvalidFirmwareFolder(m))
                && m@ == "Microsoft Visual C++ 런타임 설치 여부 확인 명령을 실행하지 못했습니다."@,
            Some((o, e)) => r == Ok::<VcRuntimeStatus, LpmError>(
                VcRuntimeStatus {
                    x86_installed: contains(script_text(o@, e@), "LPMBOX_VC_X86_FOUND"@),
                    x64_installed: contains(script_text(o@, e@), "LPMBOX_VC_X64_FOUND"@),
                },
            ),
        },
{
    if !on_windows {
        return Ok(VcRuntimeStatus { x86_installed: true, x64_installed: true });
    }
    match output {
        None => Err(LpmError::InvalidFirmwareFolder(
            "Microsoft Visual C++ 런타임 설치 여부 확인 명령을 실행하지 못했습니다.".to_string(),
        )),
        Some((o, e)) => {
            let mut t = from_utf8_lossy(o);
            let te = from_utf8_lossy(e);
            append(&mut t, te.as_slice());
            Ok(VcRuntimeStatus {
                x86_installed: contains_str(t.as_slice(), "LPMBOX_VC_X86_FOUND"),
                x64_installed: contains_str(t.as_slice(), "LPMBOX_VC_X64_FOUND"),
            })
        },
    }
}

/// `check_mtk_driver_installed`, from the check script's output (`None` when
/// the script could not be run): off Windows the driver counts as installed;
/// on Windows it is when its marker is in the output.
pub fn check_mtk_driver_installed(on_windows: bool, output: Option<(&[u8], &[u8])>) -> (r: Result<bool, LpmError>)
    ensures
        !on_windows ==> r == Ok::<bool, LpmError>(true),
        on_windows ==> match output {
            None => r matches Err(LpmError::InvalidFirmwareFolder(m))
                && m@ == "MTK 드라이버 설치 여부 확인 명령을 실행하지 못했습니다."@,
            Some((o, e)) => r == Ok::<bool, LpmError>(
                contains(script_text(o@, e@), "LPMBOX_MTK_DRIVER_FOUND"@),
            ),
        },
{
    if !on_windows {
        return Ok(true);
    }
    match output {
        None => Err(LpmError::InvalidFirmwareFolder(
            "MTK 드라이버 설치 여부 확인 명령을 실행하지 못했습니다.".to_string(),
        )),
        Some((o, e)) => {
            let mut t = from_utf8_lossy(o);
            let te = from_utf8_lossy(e);
            append(&mut t, te.as_slice());
            Ok(contains_str(t.as_slice(), "LPMBOX_MTK_DRIVER_FOUND"))
        },
    }
}

/// The outcome of installing the runtimes, by what a check found after it:
/// an error naming the missing ones unless both are there.
pub fn vc_runtime_final_check(status: VcRuntimeStatus) -> (r: Result<(), LpmError>)
    ensures
        match r {
            Ok(()) => status.x86_installed && status.x64_installed,
            Err(LpmError::InvalidFirmwareFolder(m)) => !(status.x86_installed
                && status.x64_installed) && m@
                == "Microsoft Visual C++ 런타임 설치 완료를 확인하지 못했습니다: "@ + (
            if !status.x86_installed && !status.x64_installed {
                "x86, x64"@
            } else if !status.x86_installed {
                "x86"@
            } else {
                "x64"@
            }) + ". 설치 창을 완료한 뒤 다시 시도해주세요."@,
            Err(_) => false,
        },
{
    if status.all_installed() {
        return Ok(());
    }
    let mut m = chars_of("Microsoft Visual C++ 런타임 설치 완료를 확인하지 못했습니다: ");
    if !status.x86_installed && !status.x64_installed {
        append_str(&mut m, "x86, x64");
    } else if !status.x86_installed {
        append_str(&mut m, "x86");
    } else {
        append_str(&mut m, "x64");
    }
    append_str(&mut m, ". 설치 창을 완료한 뒤 다시 시도해주세요.");
    Err(LpmError::InvalidFirmwareFolder(string_of(m.as_slice())))
}

fn error_text(prefix: &str, code: i32) -> (r: String)
    ensures
        r@ == prefix@ + crate::text::int_text(code as int),
{
    let mut m = chars_of(prefix);
    let c = crate::text::int_text_exec(code);
    append(&mut m, c.as_slice());
    string_of(m.as_slice())
}

/// What the exit code of a runtime installer means: done (and whether a
/// restart is needed), cancelled at the elevation prompt, or failed.
pub fn vc_redist_exit_result(code: i32) -> (r: Result<bool, LpmError>)
    ensures
        match r {
            Ok(restart) => (code == 0 || code == 1638) && !restart || (code == 1641 || code
                == 3010) && restart,
            Err(LpmError::InvalidFirmwareFolder(m)) => if code == 1223 {
                m@ == "Microsoft Visual C++ 런타임 설치가 관리자 권한 확인 창에서 취소되었습니다."@
            } else {
                code != 0 && code != 1638 && code != 1641 && code != 3010 && m@
                    == "Microsoft Visual C++ 런타임 설치 명령이 실패했습니다. exit_code="@
                    + crate::text::int_text(code as int)
            },
            Err(_) => false,
        },
{
    if code == 0 || code == 1638 {
        Ok(false)
    } else if code == 1641 || code == 3010 {
        Ok(true)
    } else if code == 1223 {
        let m = chars_of("Microsoft Visual C++ 런타임 설치가 관리자 권한 확인 창에서 취소되었습니다.");
        Err(LpmError::InvalidFirmwareFolder(string_of(m.as_slice())))
    } else {
        Err(
            LpmError::InvalidFirmwareFolder(
                error_text("Microsoft Visual C++ 런타임 설치 명령이 실패했습니다. exit_code=", code),
            ),
        )
    }
}

/// What the exit code of the elevated driver installer means.
pub fn handle_elevated_exit(code: i32) -> (r: Result<(), LpmError>)
    ensures
        match r {
            Ok(()) => code == 0,
            Err(LpmError::InvalidFirmwareFolder(m)) => if code == 1223 {
                m@ == "MTK 드라이버 설치가 관리자 권한 확인 창에서 취소되었습니다."@
            } else {
                code != 0 && m@ == "MTK 드라이버 설치 명령이 실패했습니다. exit_code="@
                    + crate::text::int_text(code as int)
            },
            Err(_) => false,
        },
{
    if code == 0 {
        Ok(())
    } else if code == 1223 {
        let m = chars_of("MTK 드라이버 설치가 관리자 권한 확인 창에서 취소되었습니다.");
        Err(LpmError::InvalidFirmwareFolder(string_of(m.as_slice())))
    } else {
        Err(
            LpmError::InvalidFirmwareFolder(
                error_text("MTK 드라이버 설치 명령이 실패했습니다. exit_code=", code),
            ),
        )
    }
}

/// The check of a downloaded runtime installer's size: at least 1 MiB.
pub fn vc_redist_size_check(size: u64) -> (r: Result<(), LpmError>)
    ensures
        match r {
            Ok(()) => size >= 1024 * 1024,
            Err(LpmError::InvalidFirmwareFolder(m)) => size < 1024 * 1024 && m@
                == "Microsoft Visual C++ 런타임 설치 파일 크기가 올바르지 않습니다: "@ + dec(
                size as nat,
            ) + " bytes"@,
            Err(_) => false,
        },
{
    if size < 1024 * 1024 {
        let mut m = chars_of("Microsoft Visual C++ 런타임 설치 파일 크기가 올바르지 않습니다: ");
        let d = dec_exec(size);
        append(&mut m, d.as_slice());
        append_str(&mut m, " bytes");
        return Err(LpmError::InvalidFirmwareFolder(string_of(m.as_slice())));
    }
    Ok(())
}

/// The check of a downloaded runtime installer's first two bytes: `MZ`.
pub fn vc_redist_header_check(header: [u8; 2]) -> (r: Result<(), LpmError>)
    ensures
        match r {
            Ok(()) => header@ == seq![0x4Du8, 0x5Au8],
            Err(LpmError::InvalidFirmwareFolder(m)) => header@ != seq![0x4Du8, 0x5Au8] && m@
                == "Microsoft Visual C++ 런타임 설치 파일 형식이 올바르지 않습니다."@,
            Err(_) => false,
        },
{
    if header[0] == 0x4D && header[1] == 0x5A {
        assert(header@ =~= seq![0x4Du8, 0x5Au8]);
        return Ok(());
    }
    assert(header@ != seq![0x4Du8, 0x5Au8]) by {
        if header@ == seq![0x4Du8, 0x5Au8] {
            assert(header@[0] == seq![0x4Du8, 0x5Au8][0]);
            assert(header@[1] == seq![0x4Du8, 0x5Au8][1]);
        }
    }
    let m = chars_of("Microsoft Visual C++ 런타임 설치 파일 형식이 올바르지 않습니다.");
    Err(LpmError::InvalidFirmwareFolder(string_of(m.as_slice())))
}

/// The name a download is written under until it is complete: the
/// installer's file name (or `VC_redist.exe`) with `.part` appended.
pub fn vc_redist_part_file_name(file_name: Option<&str>) -> (r: String)
    ensures
        r@ == (match file_name {
            Some(n) => n@,
            None => "VC_redist.exe"@,
        }) + ".part"@,
{
    let mut c = match file_name {
        Some(n) => chars_of(n),
        None => chars_of("VC_redist.exe"),
    };
    append_str(&mut c, ".part");
    string_of(c.as_slice())
}

/// A text inside single quotes in PowerShell: each `'` doubled.
pub open spec fn ps_quoted(s: Seq<char>) -> Seq<char>
    decreases s.len(),
{
    if s.len() == 0 {
        seq![]
    } else {
        ps_quoted(s.drop_last()) + if s.last() == '\'' {
            seq!['\'', '\'']
        } else {
            seq![s.last()]
        }
    }
}

/// `value` with each `'` doubled, for a single-quoted PowerShell string.
pub fn powershell_single_quote_escape(value: &str) -> (r: String)
    ensures
        r@ == ps_quoted(value@),
{
    let v = chars_of(value);
    let mut r: Vec<char> = Vec::new();
    let mut i: usize = 0;
    while i < v.len()
        invariant
            i <= v@.len(),
            r@ == ps_quoted(v@.subrange(0, i as int)),
        decreases v.len() - i,
    {
        assert(v@.subrange(0, i + 1).drop_last() =~= v@.subrange(0, i as int));
        if v[i] == '\'' {
            r.push('\'');
            r.push('\'');
        } else {
            r.push(v[i]);
        }
        i = i + 1;
        assert(r@ =~= ps_quoted(v@.subrange(0, i as int)));
    }
    assert(v@.subrange(0, i as int) =~= v@);
    string_of(r.as_slice())
}

/// Whether a component is the folder the driver archive wraps its files in.
pub open spec fn driver_wrapper(name: Seq<char>) -> bool {
    eq_ignore_case(name, "MTK-Driver-v5.1632"@) || eq_ignore_case(name, "MTK-Driver"@)
}

/// A driver archive path without its leading wrapper folders.
pub open spec fn without_driver_wrappers(parts: Seq<Seq<char>>) -> Seq<Seq<char>>
    decreases parts.len(),
{
    if parts.len() > 0 && driver_wrapper(parts[0]) {
        without_driver_wrappers(parts.drop_first())
    } else {
        parts
    }
}

fn is_driver_wrapper(name: &str) -> (b: bool)
    ensures
        b == driver_wrapper(name@),
{
    let c = chars_of(name);
    crate::text::eq_ignore_case_str(c.as_slice(), "MTK-Driver-v5.1632")
        || crate::text::eq_ignore_case_str(c.as_slice(), "MTK-Driver")
}

/// Where an entry of the driver archive goes under the driver folder, as the
/// names of the path below it: without its leading wrapper folders.
pub fn normalize_mtk_driver_zip_entry_path(parts: &Vec<String>) -> (r: Vec<String>)
    ensures
        string_views(r@) == without_driver_wrappers(string_views(parts@)),
{
    let ghost pv = string_views(parts@);
    let mut k: usize = 0;
    assert(pv.subrange(0, pv.len() as int) =~= pv);
    while k < parts.len() && is_driver_wrapper(parts[k].as_str())
        invariant
            k <= parts@.len(),
            pv == string_views(parts@),
            without_driver_wrappers(pv) == without_driver_wrappers(
                pv.subrange(k as int, pv.len() as int),
            ),
        decreases parts.len() - k,
    {
        let ghost rest = pv.subrange(k as int, pv.len() as int);
        assert(rest[0] == parts@[k as int]@);
        assert(rest.drop_first() =~= pv.subrange(k + 1, pv.len() as int));
        k = k + 1;
    }
    let mut r: Vec<String> = Vec::new();
    let mut j: usize = k;
    while j < parts.len()
        invariant
            k <= j <= parts@.len(),
            pv == string_views(parts@),
            string_views(r@) == pv.subrange(k as int, j as int),
        decreases parts.len() - j,
    {
        let c = chars_of(parts[j].as_str());
        let ghost before = r@;
        r.push(string_of(c.as_slice()));
        assert(string_views(r@) =~= string_views(before).push(c@));
        assert(string_views(r@) =~= pv.subrange(k as int, j + 1));
        j = j + 1;
    }
    proof {
        let rest = pv.subrange(k as int, pv.len() as int);
        if k < parts@.len() {
            assert(rest[0] == parts@[k as int]@);
        }
        assert(without_driver_wrappers(rest) == rest);
    }
    r
}


/// The installer names preferred, in order of preference.
pub open spec fn preferred_installer_names() -> Seq<Seq<char>> {
    seq![
        "MTK-Driver-Setup.exe"@,
        "MTK Driver Setup.exe"@,
        "DriverInstall.exe"@,
        "DriverInstaller.exe"@,
        "InstallDriver.exe"@,
        "MTK_Driver_Installer.exe"@,
        "setup.exe"@,
    ]
}

/// The views of optional file names.
pub open spec fn opt_views(v: Seq<Option<String>>) -> Seq<Option<Seq<char>>> {
    v.map_values(|o: Option<String>| opt_view(o))
}

/// The first position from `i` on whose name is `p` (ASCII case ignored).
pub open spec fn first_named_from(names: Seq<Option<Seq<char>>>, p: Seq<char>, i: int) -> Option<int>
    decreases names.len() - i,
{
    if i < 0 || i >= names.len() {
        None
    } else if names[i] matches Some(n) && eq_ignore_case(n, p) {
        Some(i)
    } else {
        first_named_from(names, p, i + 1)
    }
}

/// The first position whose name is one of the preferred names, trying them
/// in order of preference.
pub open spec fn first_preferred(names: Seq<Option<Seq<char>>>, k: int) -> Option<int>
    decreases preferred_installer_names().len() - k,
{
    if k < 0 || k >= preferred_installer_names().len() {
        None
    } else {
        match first_named_from(names, preferred_installer_names()[k], 0) {
            Some(i) => Some(i),
            None => first_preferred(names, k + 1),
        }
    }
}

/// Whether a name looks like an installer: in ASCII lower case it holds
/// `install` or `driver`.
pub open spec fn looks_like_installer(n: Option<Seq<char>>) -> bool {
    n matches Some(x) && (contains(ascii_lower(x), "install"@) || contains(
        ascii_lower(x),
        "driver"@,
    ))
}

/// The first position from `i` on that looks like an installer.
pub open spec fn first_installer_like(names: Seq<Option<Seq<char>>>, i: int) -> Option<int>
    decreases names.len() - i,
{
    if i < 0 || i >= names.len() {
        None
    } else if looks_like_installer(names[i]) {
        Some(i)
    } else {
        first_installer_like(names, i + 1)
    }
}

/// Which of the `.exe` files of the driver folder (by their file names, none
/// where a name is not text) is the installer: the first with a preferred
/// name, else the first that looks like one, else the first.
pub open spec fn installer_choice(names: Seq<Option<Seq<char>>>) -> Option<int> {
    match first_preferred(names, 0) {
        Some(i) => Some(i),
        None => match first_installer_like(names, 0) {
            Some(i) => Some(i),
            None => if names.len() > 0 {
                Some(0)
            } else {
                None
            },
        },
    }
}

fn first_named_exec(names: &Vec<Option<String>>, p: &str) -> (r: Option<usize>)
    ensures
        match r {
            Some(i) => first_named_from(opt_views(names@), p@, 0) == Some(i as int),
            None => first_named_from(opt_views(names@), p@, 0) is None,
        },
{
    let ghost nv = opt_views(names@);
    let mut i: usize = 0;
    while i < names.len()
        invariant
            i <= names@.len(),
            nv == opt_views(names@),
            first_named_from(nv, p@, 0) == first_named_from(nv, p@, i as int),
        decreases names.len() - i,
    {
        assert(nv[i as int] == opt_view(names@[i as int]));
        match &names[i] {
            Some(n) => {
                let c = chars_of(n.as_str());
                if crate::text::eq_ignore_case_str(c.as_slice(), p) {
                    return Some(i);
                }
            },
            None => {},
        }
        i = i + 1;
    }
    None
}

/// Which of the `.exe` files of the driver folder is the installer.
pub fn find_mtk_driver_installer(names: &Vec<Option<String>>) -> (r: Option<usize>)
    ensures
        match r {
            Some(i) => installer_choice(opt_views(names@)) == Some(i as int),
            None => installer_choice(opt_views(names@)) is None,
        },
{
    let ghost nv = opt_views(names@);
    let preferred = vec![
        "MTK-Driver-Setup.exe",
        "MTK Driver Setup.exe",
        "DriverInstall.exe",
        "DriverInstaller.exe",
        "InstallDriver.exe",
        "MTK_Driver_Installer.exe",
        "setup.exe",
    ];
    assert(preferred@.map_values(|x: &'static str| x@) =~= preferred_installer_names());
    let mut k: usize = 0;
    while k < preferred.len()
        invariant
            k <= preferred@.len(),
            preferred@.map_values(|x: &'static str| x@) == preferred_installer_names(),
            nv == opt_views(names@),
            first_preferred(nv, 0) == first_preferred(nv, k as int),
        decreases preferred.len() - k,
    {
        assert(preferred@[k as int]@ == preferred_installer_names()[k as int]);
        match first_named_exec(names, preferred[k]) {
            Some(i) => {
                return Some(i);
            },
            None => {},
        }
        k = k + 1;
    }
    let mut i: usize = 0;
    while i < names.len()
        invariant
            i <= names@.len(),
            nv == opt_views(names@),
            first_preferred(nv, 0) is None,
            first_installer_like(nv, 0) == first_installer_like(nv, i as int),
        decreases names.len() - i,
    {
        assert(nv[i as int] == opt_view(names@[i as int]));
        match &names[i] {
            Some(n) => {
                let c = chars_of(n.as_str());
                let lower = ascii_lower_vec(c.as_slice());
                if contains_str(lower.as_slice(), "install") || contains_str(
                    lower.as_slice(),
                    "driver",
                ) {
                    return Some(i);
                }
            },
            None => {},
        }
        i = i + 1;
    }
    if names.len() > 0 {
        Some(0)
    } else {
        None
    }
}

/// The guide shown when the tablet has not authorized this computer.
pub open spec fn unauthorized_guide() -> Seq<char> {
    "[안내] PC(노트북)와 연결한 태블릿에 잠금 해제 → 메세지 창 왼쪽 중간 체크 박스 체크 → 오른쪽 하단 Allow(허용)를 터치해주세요."@
}

/// The guide shown when the tablet has not authorized this computer.
pub fn adb_unauthorized_guide() -> (r: &'static str)
    ensures
        r@ == unauthorized_guide(),
{
    "[안내] PC(노트북)와 연결한 태블릿에 잠금 해제 → 메세지 창 왼쪽 중간 체크 박스 체크 → 오른쪽 하단 Allow(허용)를 터치해주세요."
}

/// The state of the USB ADB connection.
#[derive(Debug, Clone)]
pub enum AdbUsbState {
    Ready,
    Unauthorized,
    ServerBlocking,
    NoDevice,
    Error(String),
}

/// The state of the USB ADB connection, from whether an ADB device is on
/// the bus, whether a connection to it was made, and whether an adb server
/// runs (which then holds the interface).
pub fn classify_adb_state(has_devices: bool, connected: bool, server_running: bool) -> (r:
    AdbUsbState)
    ensures
        !has_devices ==> r is NoDevice,
        has_devices && connected ==> r is Ready,
        has_devices && !connected && server_running ==> r is ServerBlocking,
        has_devices && !connected && !server_running ==> r is Unauthorized,
{
    if !has_devices {
        AdbUsbState::NoDevice
    } else if connected {
        AdbUsbState::Ready
    } else if server_running {
        AdbUsbState::ServerBlocking
    } else {
        AdbUsbState::Unauthorized
    }
}

/// The message of the error for a state in which a command cannot run.
pub open spec fn state_error_text(state: AdbUsbState) -> Option<Seq<char>> {
    match state {
        AdbUsbState::Ready => None,
        AdbUsbState::Unauthorized => Some(unauthorized_guide()),
        AdbUsbState::ServerBlocking => Some("외부 adb server가 USB ADB 인터페이스를 점유 중입니다."@),
        AdbUsbState::NoDevice => Some("USB ADB 기기를 찾지 못했습니다."@),
        AdbUsbState::Error(e) => Some(e@),
    }
}

/// Whether a command may run in a state: only when ready; else the error.
pub fn adb_state_error(state: &AdbUsbState) -> (r: Result<(), LpmError>)
    ensures
        match r {
            Ok(()) => state is Ready,
            Err(LpmError::Adb(m)) => state_error_text(*state) == Some(m@),
            Err(_) => false,
        },
{
    let t: Vec<char> = match state {
        AdbUsbState::Ready => {
            return Ok(());
        },
        AdbUsbState::Unauthorized => chars_of(adb_unauthorized_guide()),
        AdbUsbState::ServerBlocking => chars_of("외부 adb server가 USB ADB 인터페이스를 점유 중입니다."),
        AdbUsbState::NoDevice => chars_of("USB ADB 기기를 찾지 못했습니다."),
        AdbUsbState::Error(e) => chars_of(e.as_str()),
    };
    Err(LpmError::Adb(string_of(t.as_slice())))
}


/// `ensure_dashboard_adb_ready`, from the state the device was found in and,
/// when that was an adb server holding the interface, the state after the
/// server was asked to stop: `None` asks for that second check (stop the
/// server, wait 200 ms, check again); otherwise whether the dashboard may be
/// read, or the error of the state found.
pub fn ensure_dashboard_adb_ready(first: &AdbUsbState, after_kill: Option<&AdbUsbState>) -> (r: Option<
    Result<(), LpmError>,
>)
    ensures
        match r {
            None => first is ServerBlocking && after_kill is None,
            Some(res) => {
                let decisive = if first is ServerBlocking {
                    *after_kill->0
                } else {
                    *first
                };
                &&& (first is ServerBlocking ==> after_kill is Some)
                &&& match res {
                    Ok(()) => decisive is Ready,
                    Err(LpmError::Adb(m)) => state_error_text(decisive) == Some(m@),
                    Err(_) => false,
                }
            },
        },
{
    match first {
        AdbUsbState::ServerBlocking => match after_kill {
            None => None,
            Some(s) => Some(adb_state_error(s)),
        },
        _ => Some(adb_state_error(first)),
    }
}

/// The state shown while no ADB device answers.
pub open spec fn waiting_state() -> Seq<char> {
    "ADB USB 기기 감지 대기 중입니다."@
}

/// The error when no USB ADB device is found.
pub open spec fn no_usb_device_text() -> Seq<char> {
    "NO_USB_ADB_DEVICE: 태블릿 확인에 실패했습니다, 올바른 데이터 케이블을 사용해주세요."@
}

/// The error when no USB ADB device is found.
pub fn no_usb_adb_device_error() -> (r: LpmError)
    ensures
        r matches LpmError::Adb(m) && m@ == no_usb_device_text(),
{
    let c = chars_of("NO_USB_ADB_DEVICE: 태블릿 확인에 실패했습니다, 올바른 데이터 케이블을 사용해주세요.");
    LpmError::Adb(string_of(c.as_slice()))
}

/// The state shown before any probe.
pub fn adb_initial_wait_state() -> (r: String)
    ensures
        r@ == waiting_state(),
{
    let c = chars_of("ADB USB 기기 감지 대기 중입니다.");
    string_of(c.as_slice())
}

/// What a round of waiting for the ADB device decided.
#[derive(Debug)]
pub struct AdbWaitStep {
    /// The device is ready: the wait is over.
    pub ready: bool,
    /// The adb server holds the interface and must be stopped.
    pub kill_server: bool,
    /// The state to show from now on.
    pub state: String,
    /// The wait is over without a device.
    pub failure: Option<LpmError>,
}

/// The state a probe leads to.
pub open spec fn state_after_probe(current: Seq<char>, probe: Option<AdbUsbState>) -> Seq<char> {
    match probe {
        None => current,
        Some(AdbUsbState::Ready) => current,
        Some(AdbUsbState::NoDevice) => waiting_state(),
        Some(AdbUsbState::Unauthorized) => "ADB unauthorized 상태입니다."@,
        Some(AdbUsbState::ServerBlocking) => "외부 adb server가 USB ADB 인터페이스를 점유 중입니다."@,
        Some(AdbUsbState::Error(e)) => e@,
    }
}

/// A round of waiting for the ADB device, given the state shown so far, the
/// probe of the device (none when no ADB device is on the bus) and whether
/// the time is up: a ready device ends the wait; else the new state is
/// shown, an adb server that holds the interface is stopped, and when the
/// time is up the wait fails: with "no device" while the state is still the
/// waiting one, else with the last state.
pub fn adb_wait_step(current_state: &str, probe: Option<&AdbUsbState>, deadline_passed: bool) -> (r:
    AdbWaitStep)
    ensures
        ({
            let p = match probe {
                Some(s) => Some(*s),
                None => None,
            };
            let st = state_after_probe(current_state@, p);
            if p matches Some(AdbUsbState::Ready) {
                r.ready && !r.kill_server && r.failure is None
            } else {
                &&& !r.ready
                &&& r.kill_server == (p matches Some(AdbUsbState::ServerBlocking))
                &&& r.state@ == st
                &&& if !deadline_passed {
                    r.failure is None
                } else if contains(st, "감지 대기"@) {
                    r.failure matches Some(LpmError::Adb(m)) && m@ == no_usb_device_text()
                } else {
                    r.failure matches Some(LpmError::Adb(m)) && m@
                        == "ADB_UNAUTHORIZED_RETRY: ADB 기기 감지 시간 초과. 마지막 상태: "@ + st
                }
            }
        }),
{
    let (state, kill): (Vec<char>, bool) = match probe {
        None => (chars_of(current_state), false),
        Some(AdbUsbState::Ready) => {
            return AdbWaitStep {
                ready: true,
                kill_server: false,
                state: String::new(),
                failure: None,
            };
        },
        Some(AdbUsbState::NoDevice) => (chars_of("ADB USB 기기 감지 대기 중입니다."), false),
        Some(AdbUsbState::Unauthorized) => (chars_of("ADB unauthorized 상태입니다."), false),
        Some(AdbUsbState::ServerBlocking) => (
            chars_of("외부 adb server가 USB ADB 인터페이스를 점유 중입니다."),
            true,
        ),
        Some(AdbUsbState::Error(e)) => (chars_of(e.as_str()), false),
    };
    let failure = if !deadline_passed {
        None
    } else if contains_str(state.as_slice(), "감지 대기") {
        Some(no_usb_adb_device_error())
    } else {
        let mut m = chars_of("ADB_UNAUTHORIZED_RETRY: ADB 기기 감지 시간 초과. 마지막 상태: ");
        append(&mut m, state.as_slice());
        Some(LpmError::Adb(string_of(m.as_slice())))
    };
    AdbWaitStep { ready: false, kill_server: kill, state: string_of(state.as_slice()), failure }
}

/// The frames of a spinner.
pub open spec fn spinner_frames() -> Seq<Seq<char>> {
    seq!["│"@, "╱"@, "━"@, "╲"@]
}

/// The log line of round `index` of the wait for the ADB device.
pub fn adb_wait_log(index: usize) -> (r: String)
    ensures
        r@ == spinner_prefix() + "adb_usb"@ + "|"@ + "[ADB] USB ADB 권한 요청/감지 중... "@
            + spinner_frames()[(index % 4) as int],
{
    let frame: &str = match index % 4 {
        0 => "│",
        1 => "╱",
        2 => "━",
        _ => "╲",
    };
    let mut m = chars_of("[ADB] USB ADB 권한 요청/감지 중... ");
    append_str(&mut m, frame);
    let ms = string_of(m.as_slice());
    spinner_log("adb_usb", ms.as_str())
}

/// The major Android version a release text names: the part before the first
/// `.` read as a `u32`.
pub open spec fn android_major_of(version: Option<Seq<char>>) -> Option<nat> {
    match version {
        None => None,
        Some(v) => parse_uint(split_char(v, '.')[0], 0xffff_ffff),
    }
}

/// The major Android version a release text names.
pub fn android_major(version: Option<&str>) -> (r: Option<u32>)
    ensures
        match r {
            Some(m) => android_major_of(opt_str_view(version)) == Some(m as nat),
            None => android_major_of(opt_str_view(version)) is None,
        },
{
    match version {
        None => None,
        Some(v) => {
            let c = chars_of(v);
            let parts = split_char_exec(c.as_slice(), '.');
            proof {
                crate::text::lemma_split_char_len(c@, '.');
            }
            assert(parts@[0]@ == split_char(c@, '.')[0]);
            match parse_uint_exec(parts[0].as_slice(), 0xffff_ffff) {
                Some(m) => Some(m as u32),
                None => None,
            }
        },
    }
}

/// Whether the installation may go on with an Android version: a known major
/// version of 14 or less stops it.
pub fn android_version_gate(major: Option<u32>) -> (r: Result<(), LpmError>)
    ensures
        match r {
            Ok(()) => !(major matches Some(m) && m <= 14),
            Err(LpmError::Adb(msg)) => major matches Some(m) && m <= 14 && msg@ == "Android "@
                + dec(m as nat) + " 기기는 1번 설치 흐름에서 차단됩니다. Android 15 이상에서만 진행합니다."@,
            Err(_) => false,
        },
{
    match major {
        Some(m) => {
            if m <= 14 {
                let mut c = chars_of("Android ");
                let d = dec_exec(m as u64);
                append(&mut c, d.as_slice());
                append_str(&mut c, " 기기는 1번 설치 흐름에서 차단됩니다. Android 15 이상에서만 진행합니다.");
                return Err(LpmError::Adb(string_of(c.as_slice())));
            }
            Ok(())
        },
        None => Ok(()),
    }
}

/// The platform a device reports, which must be a MediaTek one: the trimmed
/// value, not empty, starting with `MT` in Unicode upper case.
pub fn check_mtk_platform(raw: &str) -> (r: Result<String, LpmError>)
    ensures
        match r {
            Ok(p) => p@ == trim(raw@) && trim(raw@).len() > 0 && starts_with(
                unicode_upper(trim(raw@)),
                "MT"@,
            ),
            Err(LpmError::Adb(m)) => (trim(raw@).len() == 0 || !starts_with(
                unicode_upper(trim(raw@)),
                "MT"@,
            )) && m@ == "MediaTek platform 감지 실패 또는 MTK 기기가 아닙니다: "@ + trim(raw@),
            Err(_) => false,
        },
{
    let c = chars_of(raw);
    let t = trim_vec(c.as_slice());
    let upper = to_uppercase(t.as_slice());
    let mt = chars_of("MT");
    if t.len() == 0 || !starts_with_exec(upper.as_slice(), mt.as_slice()) {
        let mut m = chars_of("MediaTek platform 감지 실패 또는 MTK 기기가 아닙니다: ");
        append(&mut m, t.as_slice());
        return Err(LpmError::Adb(string_of(m.as_slice())));
    }
    Ok(string_of(t.as_slice()))
}

/// The model a probe reports: the model property (trimmed), else the
/// hardware-version property (trimmed; none when it could not be read), else
/// `UNKNOWN`.
pub open spec fn probe_model_text(primary: Seq<char>, fallback: Option<Seq<char>>) -> Seq<char> {
    if trim(primary).len() > 0 {
        trim(primary)
    } else if fallback matches Some(f) && trim(f).len() > 0 {
        trim(fallback->0)
    } else {
        "UNKNOWN"@
    }
}

/// The model a probe reports.
pub fn choose_probe_model(primary: &str, fallback: Option<&str>) -> (r: String)
    ensures
        r@ == probe_model_text(primary@, opt_str_view(fallback)),
{
    let c = chars_of(primary);
    let t = trim_vec(c.as_slice());
    if t.len() > 0 {
        return string_of(t.as_slice());
    }
    match fallback {
        Some(f) => {
            let fc = chars_of(f);
            let ft = trim_vec(fc.as_slice());
            if ft.len() > 0 {
                return string_of(ft.as_slice());
            }
        },
        None => {},
    }
    let u = chars_of("UNKNOWN");
    string_of(u.as_slice())
}

/// The address of the last endpoint of a direction (`true` for IN) among
/// `eps`, or 0 when there is none.
pub open spec fn last_endpoint(eps: Seq<(bool, u8)>, is_in: bool) -> u8
    decreases eps.len(),
{
    if eps.len() == 0 {
        0
    } else if eps.last().0 == is_in {
        eps.last().1
    } else {
        last_endpoint(eps.drop_last(), is_in)
    }
}

/// Whether an interface setting is that of Fastboot over USB: class 0xFF,
/// subclass 0x42, protocol 0x03.
pub open spec fn fastboot_class(class: u8, subclass: u8, protocol: u8) -> bool {
    class == 0xFF && subclass == 0x42 && protocol == 0x03
}

/// The IN and OUT endpoint addresses of an interface setting to talk Fastboot
/// over, given its class triple and its endpoints (direction, address) in
/// order: a Fastboot setting whose last IN and last OUT addresses are both
/// nonzero; none otherwise.
pub fn fastboot_endpoints(class: u8, subclass: u8, protocol: u8, endpoints: &Vec<(bool, u8)>) -> (r: Option<
    (u8, u8),
>)
    ensures
        r == (if fastboot_class(class, subclass, protocol) && last_endpoint(endpoints@, true) != 0
            && last_endpoint(endpoints@, false) != 0 {
            Some((last_endpoint(endpoints@, true), last_endpoint(endpoints@, false)))
        } else {
            None
        }),
{
    if !(class == 0xFF && subclass == 0x42 && protocol == 0x03) {
        return None;
    }
    let mut in_addr: u8 = 0;
    let mut out_addr: u8 = 0;
    let mut i: usize = 0;
    while i < endpoints.len()
        invariant
            i <= endpoints@.len(),
            in_addr == last_endpoint(endpoints@.subrange(0, i as int), true),
            out_addr == last_endpoint(endpoints@.subrange(0, i as int), false),
        decreases endpoints.len() - i,
    {
        assert(endpoints@.subrange(0, i + 1).drop_last() =~= endpoints@.subrange(0, i as int));
        let (is_in, address) = endpoints[i];
        if is_in {
            in_addr = address;
        } else {
            out_addr = address;
        }
        i = i + 1;
    }
    assert(endpoints@.subrange(0, i as int) =~= endpoints@);
    if in_addr == 0 || out_addr == 0 {
        None
    } else {
        Some((in_addr, out_addr))
    }
}

/// What a Fastboot reply packet means for a command.
#[derive(Debug)]
pub enum FastbootReply {
    /// An `INFO` packet: more replies follow.
    Continue,
    /// The command's outcome.
    Done(Result<String, LpmError>),
}

/// A byte sequence as text, or empty when it is not UTF-8.
pub open spec fn utf8_or_empty(b: Seq<u8>) -> Seq<char> {
    if valid_utf8(b) {
        decode_utf8(b)
    } else {
        Seq::<char>::empty()
    }
}

fn utf8_or_empty_exec(b: &[u8]) -> (r: Vec<char>)
    ensures
        r@ == utf8_or_empty(b@),
{
    match utf8_decode(b) {
        Some(v) => v,
        None => Vec::new(),
    }
}

/// What a Fastboot reply packet means for `command`: its first four bytes
/// are the status (as text; empty when not UTF-8), the rest the trimmed
/// payload. `OKAY` and `DATA` give the payload, `FAIL` an error with it,
/// `INFO` asks for the next packet, and anything else, or a packet shorter
/// than four bytes, is an error.
pub fn fastboot_reply(command: &str, data: &[u8]) -> (r: FastbootReply)
    ensures
        if data@.len() < 4 {
            r matches FastbootReply::Done(Err(LpmError::Fastboot(m))) && m@
                == "Fastboot 응답이 너무 짧습니다."@
        } else {
            let status = utf8_or_empty(data@.subrange(0, 4));
            let payload = trim(utf8_or_empty(data@.subrange(4, data@.len() as int)));
            if status == "OKAY"@ || status == "DATA"@ {
                r matches FastbootReply::Done(Ok(p)) && p@ == payload
            } else if status == "FAIL"@ {
                r matches FastbootReply::Done(Err(LpmError::Fastboot(m))) && m@
                    == "Fastboot 명령 실패 `"@ + command@ + "`: "@ + payload
            } else if status == "INFO"@ {
                r is Continue
            } else {
                r matches FastbootReply::Done(Err(LpmError::Fastboot(m))) && m@
                    == "Fastboot 알 수 없는 응답 `"@ + status + "` / 명령 `"@ + command@ + "`"@
            }
        },
{
    if data.len() < 4 {
        let m = chars_of("Fastboot 응답이 너무 짧습니다.");
        return FastbootReply::Done(Err(LpmError::Fastboot(string_of(m.as_slice()))));
    }
    let head = crate::text::subvec_u8(data, 0, 4);
    let tail = crate::text::subvec_u8(data, 4, data.len());
    let status = utf8_or_empty_exec(head.as_slice());
    let pv = utf8_or_empty_exec(tail.as_slice());
    let payload = trim_vec(pv.as_slice());
    let st = status.as_slice();
    if chars_eq_str(st, "OKAY") || chars_eq_str(st, "DATA") {
        FastbootReply::Done(Ok(string_of(payload.as_slice())))
    } else if chars_eq_str(st, "FAIL") {
        let mut m = chars_of("Fastboot 명령 실패 `");
        append_str(&mut m, command);
        append_str(&mut m, "`: ");
        append(&mut m, payload.as_slice());
        FastbootReply::Done(Err(LpmError::Fastboot(string_of(m.as_slice()))))
    } else if chars_eq_str(st, "INFO") {
        FastbootReply::Continue
    } else {
        let mut m = chars_of("Fastboot 알 수 없는 응답 `");
        append(&mut m, st);
        append_str(&mut m, "` / 명령 `");
        append_str(&mut m, command);
        append_str(&mut m, "`");
        FastbootReply::Done(Err(LpmError::Fastboot(string_of(m.as_slice()))))
    }
}

/// A byte array as `{:?}` shows it, such as `[79, 75]`.
pub open spec fn bytes_debug(b: Seq<u8>) -> Seq<char>
    decreases b.len(),
{
    if b.len() == 0 {
        "[]"@
    } else {
        seq!['['] + bytes_debug_items(b) + seq![']']
    }
}

/// The items of `bytes_debug`, separated by `, `.
pub open spec fn bytes_debug_items(b: Seq<u8>) -> Seq<char>
    decreases b.len(),
{
    if b.len() == 0 {
        seq![]
    } else if b.len() == 1 {
        dec(b[0] as nat)
    } else {
        bytes_debug_items(b.drop_last()) + ", "@ + dec(b.last() as nat)
    }
}

/// The items of `bytes_debug`, computed.
fn bytes_debug_items_exec(b: &[u8]) -> (r: Vec<char>)
    ensures
        r@ == bytes_debug_items(b@),
{
    let n = b.len();
    let mut r: Vec<char> = Vec::new();
    let mut i: usize = 0;
    while i < n
        invariant
            n == b@.len(),
            i <= n,
            r@ == bytes_debug_items(b@.subrange(0, i as int)),
        decreases n - i,
    {
        let ghost pre = b@.subrange(0, i as int);
        let ghost next = b@.subrange(0, i as int + 1);
        assert(next.drop_last() =~= pre);
        assert(next.last() == b[i as int]);
        let d = dec_exec(b[i] as u64);
        if i > 0 {
            append_str(&mut r, ", ");
        }
        append(&mut r, d.as_slice());
        i = i + 1;
    }
    assert(b@.subrange(0, n as int) =~= b@);
    r
}

/// The outcome of asking the adb server to stop, by its four-byte reply.
pub fn kill_server_reply_result(reply: [u8; 4]) -> (r: Result<(), LpmError>)
    ensures
        match r {
            Ok(()) => reply@ == seq![79u8, 75u8, 65u8, 89u8],
            Err(LpmError::Adb(m)) => if reply@ == seq![70u8, 65u8, 73u8, 76u8] {
                m@ == "adb server가 host:kill 요청을 거부했습니다."@
            } else {
                reply@ != seq![79u8, 75u8, 65u8, 89u8] && m@
                    == "adb server host:kill 응답이 예상과 다릅니다: "@ + bytes_debug(reply@)
            },
            Err(_) => false,
        },
{
    let ghost rv = reply@;
    assert(rv == seq![reply[0], reply[1], reply[2], reply[3]]);
    if reply[0] == 79 && reply[1] == 75 && reply[2] == 65 && reply[3] == 89 {
        return Ok(());
    }
    if reply[0] == 70 && reply[1] == 65 && reply[2] == 73 && reply[3] == 76 {
        let m = chars_of("adb server가 host:kill 요청을 거부했습니다.");
        return Err(LpmError::Adb(string_of(m.as_slice())));
    }
    assert(rv != seq![79u8, 75u8, 65u8, 89u8]) by {
        if rv == seq![79u8, 75u8, 65u8, 89u8] {
            assert(rv[0] == 79u8 && rv[1] == 75u8 && rv[2] == 65u8 && rv[3] == 89u8);
        }
    }
    assert(rv != seq![70u8, 65u8, 73u8, 76u8]) by {
        if rv == seq![70u8, 65u8, 73u8, 76u8] {
            assert(rv[0] == 70u8 && rv[1] == 65u8 && rv[2] == 73u8 && rv[3] == 76u8);
        }
    }
    let mut m = chars_of("adb server host:kill 응답이 예상과 다릅니다: ");
    m.push('[');
    let items = bytes_debug_items_exec(&reply);
    append(&mut m, items.as_slice());
    m.push(']');
    Err(LpmError::Adb(string_of(m.as_slice())))
}

/// What a device is rebooted into.
#[derive(Debug, Clone, Copy, PartialEq, Eq, Structural)]
pub enum RebootTarget {
    Bootloader,
    Recovery,
    Sideload,
    System,
}

/// What a reboot target name means; any other name is a normal reboot.
pub fn reboot_target_of(target: &str) -> (r: RebootTarget)
    ensures
        r == (if target@ == "bootloader"@ {
            RebootTarget::Bootloader
        } else if target@ == "recovery"@ {
            RebootTarget::Recovery
        } else if target@ == "sideload"@ {
            RebootTarget::Sideload
        } else {
            RebootTarget::System
        }),
{
    let t = chars_of(target);
    if chars_eq_str(t.as_slice(), "bootloader") {
        RebootTarget::Bootloader
    } else if chars_eq_str(t.as_slice(), "recovery") {
        RebootTarget::Recovery
    } else if chars_eq_str(t.as_slice(), "sideload") {
        RebootTarget::Sideload
    } else {
        RebootTarget::System
    }
}

/// The outcome of a reboot request, by the error it returned (if any): an
/// error that only says the device went down to reboot is success.
pub fn adb_reboot_result(error: Option<&str>) -> (r: Result<(), LpmError>)
    ensures
        match error {
            None => r is Ok,
            Some(e) => {
                let m = "ADB reboot 실패: "@ + e@;
                if dropped_after_reboot(m) {
                    r is Ok
                } else {
                    r matches Err(LpmError::Adb(x)) && x@ == m
                }
            },
        },
{
    match error {
        None => Ok(()),
        Some(e) => {
            let mut m = chars_of("ADB reboot 실패: ");
            append_str(&mut m, e);
            let ms = string_of(m.as_slice());
            if is_adbd_dropped_after_reboot(ms.as_str()) {
                Ok(())
            } else {
                Err(LpmError::Adb(ms))
            }
        },
    }
}

/// The output of a shell command as it is returned: decoded as
/// `String::from_utf8_lossy` does, trimmed.
pub fn adb_shell_output(stdout: &[u8]) -> (r: String)
    ensures
        r@ == trim(utf8_lossy(stdout@)),
{
    let d = from_utf8_lossy(stdout);
    let t = trim_vec(d.as_slice());
    string_of(t.as_slice())
}

/// The error of a failed shell command, with the command, the transport's
/// error and the command's own error output (decoded, trimmed) when there
/// is any.
pub fn adb_shell_error(command: &str, error: &str, stderr: &[u8]) -> (r: LpmError)
    ensures
        r matches LpmError::Adb(m) && m@ == "ADB shell 실패 `"@ + command@ + "`: "@ + error@ + (
        if trim(utf8_lossy(stderr@)).len() == 0 {
            Seq::<char>::empty()
        } else {
            " / stderr="@ + trim(utf8_lossy(stderr@))
        }),
{
    let d = from_utf8_lossy(stderr);
    let t = trim_vec(d.as_slice());
    let mut m = chars_of("ADB shell 실패 `");
    append_str(&mut m, command);
    append_str(&mut m, "`: ");
    append_str(&mut m, error);
    if t.len() > 0 {
        append_str(&mut m, " / stderr=");
        append(&mut m, t.as_slice());
    }
    LpmError::Adb(string_of(m.as_slice()))
}

/// The outcome of putting the device on slot A, by the slot Fastboot reports
/// at the end (unknown when it reports none).
pub fn final_slot_check(slot: Option<&str>) -> (r: Result<(), LpmError>)
    ensures
        ({
            let s = match slot {
                Some(v) => v@,
                None => "UNKNOWN"@,
            };
            match r {
                Ok(()) => s == "_a"@,
                Err(LpmError::Fastboot(m)) => s != "_a"@ && m@ == "slot A 설정 실패 / 최종 slot: "@
                    + s,
                Err(_) => false,
            }
        }),
{
    let s = match slot {
        Some(v) => chars_of(v),
        None => chars_of("UNKNOWN"),
    };
    if chars_eq_str(s.as_slice(), "_a") {
        return Ok(());
    }
    let mut m = chars_of("slot A 설정 실패 / 최종 slot: ");
    append(&mut m, s.as_slice());
    Err(LpmError::Fastboot(string_of(m.as_slice())))
}

/// Whether a failed attempt to set the boot slot over ADB is logged: the
/// first and the last (tenth) are.
pub fn bootctl_failure_logged(attempt: u32) -> (b: bool)
    ensures
        b == (attempt == 1 || attempt == 10),
{
    attempt == 1 || attempt == 10
}

} // verus!
