use lpmbox::model::{LpmError, ProinfoLiveEvent};
use lpmbox::spft::{
    append_tail, build_readback_config_xml, download_outcome, download_start_logs, extract_percent,
    extract_spft_partition_name, feed_pipe_bytes, flash_xml_not_found_error, flush_pending_line,
    handle_spflashtoolv6_pipe_line, is_spft_root_entry, is_spft_wrapper_folder,
    missing_tool_files_error, normalize_spft_zip_entry_path, parse_spflashtoolv6_progress,
    parse_spflashtoolv6_status_message, readback_config_error, readback_outcome,
    required_spflashtoolv6_files, resolve_image_dir_choice, should_skip_tool_entry,
    spft_tool_is_current, tail_text, tool_step_allowed, xml_escape, ensure_embedded_spflashtoolv6_tool,
    ImageDirChoice, PipeKind, PipeState, ToolEvent, ToolNext, ToolRequest, ToolStage, ZipPathPart,
};

fn names(v: &[&str]) -> Vec<ZipPathPart> {
    v.iter().map(|s| ZipPathPart::Normal(s.to_string())).collect()
}

fn strings(v: &[&str]) -> Vec<String> {
    v.iter().map(|s| s.to_string()).collect()
}

#[test]
fn percent_is_the_first_valid_one() {
    assert_eq!(extract_percent("Download 45%"), Some(45));
    assert_eq!(extract_percent("200% then 50%"), Some(50));
    assert_eq!(extract_percent("% and 7%"), Some(7));
    assert_eq!(extract_percent("100%"), Some(100));
    assert_eq!(extract_percent("no percent"), None);
    assert_eq!(extract_percent("70000% 50%"), None);
}

#[test]
fn partition_name_from_brackets() {
    assert_eq!(extract_spft_partition_name("write [ super ] 10%"), Some("super".to_string()));
    assert_eq!(
        extract_spft_partition_name("[boot_a [3/10]] 10%"),
        Some("boot_a (3/10)".to_string())
    );
    assert_eq!(extract_spft_partition_name("[boot_a [x]]"), Some("boot_a".to_string()));
    assert_eq!(extract_spft_partition_name("[  ]"), None);
    assert_eq!(extract_spft_partition_name("no brackets"), None);
}

#[test]
fn progress_stages() {
    let p = parse_spflashtoolv6_progress("DA data has been sent 30%").unwrap();
    assert_eq!((p.stage.as_str(), p.percent), ("DA 설정", 30));
    let p = parse_spflashtoolv6_progress("Data readback to PC 12%").unwrap();
    assert_eq!(p.stage, "proinfo 백업");
    let p = parse_spflashtoolv6_progress("[super] 5%").unwrap();
    assert_eq!(p.stage, "super");
    let p = parse_spflashtoolv6_progress("Image data has been sent 99%").unwrap();
    assert_eq!(p.stage, "image");
    let p = parse_spflashtoolv6_progress("Format 1%").unwrap();
    assert_eq!(p.stage, "플래싱");
    let p = parse_spflashtoolv6_progress("something 1%").unwrap();
    assert_eq!(p.stage, "작업 진행");
    assert!(parse_spflashtoolv6_progress("Download").is_none());
}

#[test]
fn status_messages() {
    assert_eq!(
        parse_spflashtoolv6_status_message("Connect BROM succeeded"),
        Some("BROM 연결 성공".to_string())
    );
    assert_eq!(
        parse_spflashtoolv6_status_message("download command execute done"),
        Some("플래싱 명령 완료".to_string())
    );
    assert_eq!(
        parse_spflashtoolv6_status_message("All command exec done"),
        Some("SPFlashToolV6 작업 완료".to_string())
    );
    assert_eq!(
        parse_spflashtoolv6_status_message("Warning: low battery"),
        Some("SPFlashToolV6 경고: Warning: low battery".to_string())
    );
    assert_eq!(
        parse_spflashtoolv6_status_message("STATUS_FAIL"),
        Some("SPFlashToolV6 오류: STATUS_FAIL".to_string())
    );
    assert_eq!(parse_spflashtoolv6_status_message("hello"), None);
}

#[test]
fn tails_keep_the_last_characters() {
    assert_eq!(tail_text("abcdef", 3), "def");
    assert_eq!(tail_text("ab", 3), "ab");
    assert_eq!(tail_text("가나다", 2), "나다");
    let mut t = String::from("abc");
    append_tail(&mut t, "de", 4);
    assert_eq!(t, "cde\n");
    let mut u = String::new();
    append_tail(&mut u, "x", 10);
    assert_eq!(u, "x\n");
}

#[test]
fn the_same_progress_is_reported_once() {
    let mut st = PipeState::new();
    let first = handle_spflashtoolv6_pipe_line(&mut st, PipeKind::Stdout, "Format 10%");
    assert!(matches!(first, Some(ProinfoLiveEvent::Progress(ref p)) if p.percent == 10 && p.stage == "플래싱"));
    let second = handle_spflashtoolv6_pipe_line(&mut st, PipeKind::Stdout, "Format 10%");
    assert!(second.is_none());
    let third = handle_spflashtoolv6_pipe_line(&mut st, PipeKind::Stderr, "Format 11%");
    assert!(matches!(third, Some(ProinfoLiveEvent::Progress(ref p)) if p.percent == 11));
    assert_eq!(st.stdout_tail, "Format 10%\nFormat 10%\n");
    assert_eq!(st.stderr_tail, "Format 11%\n");
    assert_eq!(st.last_progress, Some(("플래싱".to_string(), 11)));
}

#[test]
fn status_lines_become_log_events() {
    let mut st = PipeState::new();
    let e = handle_spflashtoolv6_pipe_line(&mut st, PipeKind::Stdout, "Enter DA mode succeed");
    assert!(matches!(e, Some(ProinfoLiveEvent::Log(ref m)) if m == "DA 모드 진입 완료"));
    assert!(st.last_progress.is_none());
    assert!(handle_spflashtoolv6_pipe_line(&mut st, PipeKind::Stdout, "plain").is_none());
}

#[test]
fn bytes_become_trimmed_lines() {
    let mut pending: Vec<u8> = Vec::new();
    let lines = feed_pipe_bytes(&mut pending, b"  one \r\n\ntwo\rthr");
    assert_eq!(lines, strings(&["one", "two"]));
    assert_eq!(pending, b"thr".to_vec());
    let more = feed_pipe_bytes(&mut pending, b"ee\n");
    assert_eq!(more, strings(&["three"]));
    assert!(pending.is_empty());
    let mut rest = b"  last ".to_vec();
    assert_eq!(flush_pending_line(&mut rest), Some("last".to_string()));
    assert!(rest.is_empty());
    let mut blank = b"   ".to_vec();
    assert_eq!(flush_pending_line(&mut blank), None);
    assert!(blank.is_empty());
}

#[test]
fn invalid_utf8_is_replaced_in_lines() {
    let mut pending: Vec<u8> = Vec::new();
    let lines = feed_pipe_bytes(&mut pending, &[0x61, 0xff, 0x62, b'\n']);
    assert_eq!(lines, vec!["a\u{fffd}b".to_string()]);
}

#[test]
fn xml_escape_replaces_the_five_characters() {
    assert_eq!(xml_escape(r#"a&b<c>d"e'f"#), "a&amp;b&lt;c&gt;d&quot;e&apos;f");
    assert_eq!(xml_escape("plain"), "plain");
}

#[test]
fn escaped_text_has_no_markup_characters() {
    let e = xml_escape("<&>\"'");
    assert!(!e.contains('<') && !e.contains('>') && !e.contains('"') && !e.contains('\''));
}

#[test]
fn readback_config_holds_the_escaped_paths() {
    let xml = build_readback_config_xml("C:\\a&b\\flash.xml", "C:\\logs", "C:\\out<1>");
    assert!(xml.starts_with("<?xml version=\"1.0\" encoding=\"UTF-8\"?>\n<cflashtool-config"));
    assert!(xml.contains("<flash-xml>C:\\a&amp;b\\flash.xml</flash-xml>"));
    assert!(xml.contains("log_path=\"C:\\logs\" clean_hours=\"48\""));
    assert!(xml.contains("file_name=\"C:\\out&lt;1&gt;\"/>"));
    assert!(xml.ends_with("</commands>\n</cflashtool-config>"));
}

#[test]
fn tool_entries() {
    assert!(is_spft_root_entry("spflashtoolv6.EXE"));
    assert!(is_spft_root_entry("plugins"));
    assert!(!is_spft_root_entry("readme.txt"));
    assert!(is_spft_wrapper_folder("SP_Flash_Tool_V6.2404_Win"));
    assert!(is_spft_wrapper_folder("x-v6.2404"));
    assert!(!is_spft_wrapper_folder("plugins"));
}

#[test]
fn zip_entries_are_normalized() {
    assert_eq!(
        normalize_spft_zip_entry_path(&names(&["SP_Flash_Tool_V6.2404_Win", "flash.dll"])),
        Some(strings(&["flash.dll"]))
    );
    assert_eq!(
        normalize_spft_zip_entry_path(&names(&["plugins", "platforms", "qwindows.dll"])),
        Some(strings(&["plugins", "platforms", "qwindows.dll"]))
    );
    assert_eq!(normalize_spft_zip_entry_path(&names(&["SP_Flash_Tool_V6.2404_Win"])), None);
    assert_eq!(normalize_spft_zip_entry_path(&names(&["__MACOSX", "a"])), None);
    assert_eq!(normalize_spft_zip_entry_path(&names(&["a", ".hidden"])), None);
    assert_eq!(normalize_spft_zip_entry_path(&names(&["backupdata"])), None);
    assert_eq!(normalize_spft_zip_entry_path(&names(&[])), None);
    let special = vec![ZipPathPart::Special, ZipPathPart::Normal("a".to_string())];
    assert_eq!(normalize_spft_zip_entry_path(&special), None);
}

#[test]
fn bundled_entries_are_skipped_by_their_first_component() {
    assert!(should_skip_tool_entry(&None));
    assert!(should_skip_tool_entry(&Some(ZipPathPart::Special)));
    assert!(should_skip_tool_entry(&Some(ZipPathPart::Normal("BACKUPDATA".to_string()))));
    assert!(should_skip_tool_entry(&Some(ZipPathPart::Normal(".git".to_string()))));
    assert!(!should_skip_tool_entry(&Some(ZipPathPart::Normal("flash.dll".to_string()))));
}

#[test]
fn tool_revision_marker() {
    assert!(spft_tool_is_current(true, Some(" spflashtoolv6_official_v6_2404_20260615_a\n")));
    assert!(!spft_tool_is_current(false, Some("spflashtoolv6_official_v6_2404_20260615_a")));
    assert!(!spft_tool_is_current(true, Some("old")));
    assert!(!spft_tool_is_current(true, None));
}

#[test]
fn required_files_and_missing_error() {
    let r = required_spflashtoolv6_files();
    assert_eq!(r.len(), 6);
    assert_eq!(r[5], vec!["plugins", "platforms", "qwindows.dll"]);
    assert!(missing_tool_files_error(&Vec::new()).is_ok());
    match missing_tool_files_error(&strings(&["a", "b"])) {
        Err(LpmError::Spft(m)) => assert_eq!(m, "내장 SPFlashToolV6 추출 후 필수 파일이 없습니다: a / b"),
        other => panic!("unexpected {other:?}"),
    }
}

#[test]
fn image_dir_choices() {
    assert!(matches!(
        resolve_image_dir_choice(true, Some("IMAGE"), true, false, "d"),
        Ok(ImageDirChoice::Selected)
    ));
    assert!(matches!(resolve_image_dir_choice(true, Some("root"), true, true, "d"), Ok(ImageDirChoice::Child)));
    match resolve_image_dir_choice(false, Some("x"), true, true, "/x") {
        Err(LpmError::InvalidFirmwareFolder(m)) => assert_eq!(m, "/x"),
        other => panic!("unexpected {other:?}"),
    }
    match resolve_image_dir_choice(true, Some("image"), false, false, "/image") {
        Err(LpmError::InvalidFirmwareFolder(m)) => {
            assert_eq!(m, "image 폴더의 상위 root 경로를 찾지 못했습니다: /image")
        }
        other => panic!("unexpected {other:?}"),
    }
    match resolve_image_dir_choice(true, Some("root"), true, false, "/root") {
        Err(LpmError::InvalidFirmwareFolder(m)) => assert_eq!(
            m,
            "image 폴더 또는 image 폴더를 포함한 root 폴더를 선택해야 합니다: /root"
        ),
        other => panic!("unexpected {other:?}"),
    }
}

#[test]
fn readback_and_download_outcomes() {
    assert!(readback_outcome(true, Some(0), "", true, 10, "p").is_ok());
    match readback_outcome(false, Some(-3), "bad", true, 10, "p") {
        Err(LpmError::Spft(m)) => assert_eq!(m, "SPFlashToolV6 readback 실패 / exit_code=Some(-3) / stderr=bad"),
        other => panic!("unexpected {other:?}"),
    }
    match readback_outcome(true, None, "", true, 0, "C:\\proinfo") {
        Err(LpmError::Spft(m)) => assert_eq!(
            m,
            "SPFlashToolV6 실행은 완료됐지만 proinfo 백업 파일이 생성되지 않았습니다: C:\\proinfo"
        ),
        other => panic!("unexpected {other:?}"),
    }
    assert!(download_outcome(true, Some(0), "").is_ok());
    match download_outcome(false, None, "e") {
        Err(LpmError::Spft(m)) => assert_eq!(m, "SPFlashToolV6 download 실패 / exit_code=None / stderr=e"),
        other => panic!("unexpected {other:?}"),
    }
}

#[test]
fn download_logs_and_errors() {
    assert_eq!(
        download_start_logs("t.exe", "da.bin", "f.xml"),
        strings(&["SPFlashToolV6 download 실행 시작", "SPFlashToolV6.exe: t.exe", "DA 파일: da.bin", "flash.xml: f.xml"])
    );
    match flash_xml_not_found_error("a/download_agent/flash.xml", "a/flash.xml") {
        LpmError::FileNotFound(m) => assert_eq!(m, "a/download_agent/flash.xml 또는 a/flash.xml"),
        other => panic!("unexpected {other:?}"),
    }
    match readback_config_error("c.xml") {
        LpmError::Spft(m) => assert_eq!(m, "readback_config.xml 생성 실패: c.xml"),
        other => panic!("unexpected {other:?}"),
    }
}

#[test]
fn chunked_output_gives_the_same_lines() {
    let whole = b" first\r\nsecond\nthi".to_vec();
    let mut p1: Vec<u8> = Vec::new();
    let all_at_once = feed_pipe_bytes(&mut p1, &whole);
    let mut p2: Vec<u8> = Vec::new();
    let mut in_parts = feed_pipe_bytes(&mut p2, &whole[..4]);
    in_parts.extend(feed_pipe_bytes(&mut p2, &whole[4..11]));
    in_parts.extend(feed_pipe_bytes(&mut p2, &whole[11..]));
    assert_eq!(all_at_once, in_parts);
    assert_eq!(p1, p2);
    assert_eq!(all_at_once, strings(&["first", "second"]));
}

#[test]
fn percent_never_exceeds_one_hundred() {
    for line in ["101%", "999% 100%", "5% 150%", "65535%"] {
        if let Some(p) = extract_percent(line) {
            assert!(p <= 100);
        }
    }
    assert_eq!(extract_percent("999% 100%"), Some(100));
    assert_eq!(extract_percent("65536% 5%"), None);
}

fn awaits(next: ToolNext) -> (ToolRequest, ToolStage) {
    match next {
        ToolNext::Await(request, stage) => (request, stage),
        ToolNext::Finish(_) => panic!("the step finished"),
    }
}

#[test]
fn current_tool_is_kept() {
    let (request, stage) = awaits(ensure_embedded_spflashtoolv6_tool(ToolStage::Start, ToolEvent::Begin));
    assert_eq!(request, ToolRequest::Inspect);
    assert_eq!(stage, ToolStage::AwaitInspection);
    let found = ToolEvent::Inspected(Ok((true, Some(" spflashtoolv6_official_v6_2404_20260615_a\n".to_string()))));
    assert!(tool_step_allowed(&stage, &found));
    assert!(matches!(ensure_embedded_spflashtoolv6_tool(stage, found), ToolNext::Finish(Ok(()))));
}

#[test]
fn outdated_tool_is_unpacked_afresh() {
    let old = ToolEvent::Inspected(Ok((true, Some("older".to_string()))));
    let (request, stage) = awaits(ensure_embedded_spflashtoolv6_tool(ToolStage::AwaitInspection, old));
    assert_eq!((request, stage), (ToolRequest::Reset, ToolStage::AwaitReset));
    let (request, stage) = awaits(ensure_embedded_spflashtoolv6_tool(stage, ToolEvent::Done(Ok(()))));
    assert_eq!((request, stage), (ToolRequest::DownloadOfficial, ToolStage::AwaitDownload));
    let failed = ToolEvent::Done(Err(LpmError::Spft("offline".to_string())));
    let (request, stage) = awaits(ensure_embedded_spflashtoolv6_tool(stage, failed));
    assert_eq!((request, stage), (ToolRequest::UseCachedOfficial, ToolStage::AwaitCached));
    let failed = ToolEvent::Done(Err(LpmError::FileNotFound("zip".to_string())));
    let (request, stage) = awaits(ensure_embedded_spflashtoolv6_tool(stage, failed));
    assert_eq!((request, stage), (ToolRequest::ExtractBundled, ToolStage::AwaitExtract { official: false }));
    let (request, stage) = awaits(ensure_embedded_spflashtoolv6_tool(stage, ToolEvent::Done(Ok(()))));
    assert_eq!((request, stage), (ToolRequest::Cleanup, ToolStage::AwaitCleanup));
    let (request, stage) = awaits(ensure_embedded_spflashtoolv6_tool(stage, ToolEvent::Done(Ok(()))));
    assert_eq!((request, stage), (ToolRequest::WriteMarker, ToolStage::AwaitMarker));
    let (request, stage) = awaits(ensure_embedded_spflashtoolv6_tool(stage, ToolEvent::Done(Ok(()))));
    assert_eq!((request, stage), (ToolRequest::Validate, ToolStage::AwaitValidation));
    let missing = ToolEvent::Missing(strings(&["a.dll", "b.dll"]));
    match ensure_embedded_spflashtoolv6_tool(stage, missing) {
        ToolNext::Finish(Err(LpmError::Spft(m))) => {
            assert_eq!(m, "내장 SPFlashToolV6 추출 후 필수 파일이 없습니다: a.dll / b.dll")
        }
        _ => panic!("expected the missing files"),
    }
    assert!(matches!(
        ensure_embedded_spflashtoolv6_tool(ToolStage::AwaitValidation, ToolEvent::Missing(vec![])),
        ToolNext::Finish(Ok(()))
    ));
}

#[test]
fn downloaded_tool_is_unpacked_and_failures_stop() {
    let (request, stage) = awaits(ensure_embedded_spflashtoolv6_tool(ToolStage::AwaitDownload, ToolEvent::Done(Ok(()))));
    assert_eq!((request, stage), (ToolRequest::ExtractOfficial, ToolStage::AwaitExtract { official: true }));
    let (request, _) = awaits(ensure_embedded_spflashtoolv6_tool(ToolStage::AwaitCached, ToolEvent::Done(Ok(()))));
    assert_eq!(request, ToolRequest::ExtractOfficial);
    let failed = ToolEvent::Inspected(Err(LpmError::Spft("disk".to_string())));
    assert!(matches!(
        ensure_embedded_spflashtoolv6_tool(ToolStage::AwaitInspection, failed),
        ToolNext::Finish(Err(LpmError::Spft(m))) if m == "disk"
    ));
    let failed = ToolEvent::Done(Err(LpmError::Spft("write".to_string())));
    assert!(matches!(
        ensure_embedded_spflashtoolv6_tool(ToolStage::AwaitMarker, failed),
        ToolNext::Finish(Err(LpmError::Spft(m))) if m == "write"
    ));
    assert!(!tool_step_allowed(&ToolStage::AwaitReset, &ToolEvent::Begin));
    assert!(tool_step_allowed(&ToolStage::AwaitReset, &ToolEvent::Done(Ok(()))));
}
