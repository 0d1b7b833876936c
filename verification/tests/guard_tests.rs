use lpmbox::guard::{
    block_firmware_rules_url, blocked_versions_for_model, check_blocked_firmware, extract_model,
    extract_platform_from_marker, extract_region, extract_version, find_any_scatter_source,
    identify_firmware, infer_platform_from_scatter_names, lex_lt_exec, normalize_version,
    platform_from_flash_xml_text, platform_from_scatter_file_name, refresh_block_firmware_rules,
    scatter_not_found_error, scatter_source_format, scatter_x_file_name, scatter_xml_file_name,
    strip_inline_comment, supported_model_list, take_upper_run, take_version_number_part,
    utf8_len_at_least_4, validate_block_firmware_rules, ScatterFormat,
};
use lpmbox::model::{LpmError, RomRegion};

fn chars(s: &str) -> Vec<char> {
    s.chars().collect()
}

fn text(v: &[char]) -> String {
    v.iter().collect()
}

fn strings(v: &[&str]) -> Vec<String> {
    v.iter().map(|s| s.to_string()).collect()
}

#[test]
fn rules_url_is_the_published_list() {
    assert_eq!(
        block_firmware_rules_url(),
        "https://raw.githubusercontent.com/dwas-KR/LPMBox/refs/heads/Downloads/block_firmware.ini"
    );
}

#[test]
fn supported_models_in_order() {
    assert_eq!(
        supported_model_list(),
        vec!["TB375FC", "TB373FU", "TB365FC", "TB361FU", "TB335FC", "TB336FU"]
    );
}

#[test]
fn inline_comments_are_cut_at_the_first_marker() {
    assert_eq!(text(&strip_inline_comment(&chars("TB375FC: a // b # c"))), "TB375FC: a ");
    assert_eq!(text(&strip_inline_comment(&chars("TB375FC: a # b // c"))), "TB375FC: a ");
    assert_eq!(text(&strip_inline_comment(&chars("no comment"))), "no comment");
    assert_eq!(text(&strip_inline_comment(&chars("# all"))), "");
}

#[test]
fn versions_are_normalized_trimmed_and_upper() {
    assert_eq!(text(&normalize_version(&chars("  zui_16.0.123_st "))), "ZUI_16.0.123_ST");
}

#[test]
fn normalize_version_is_idempotent_on_an_example() {
    let once = normalize_version(&chars(" zuxos_1.2_x "));
    let twice = normalize_version(&once);
    assert_eq!(once, twice);
}

#[test]
fn blocked_versions_are_read_for_the_model() {
    let rules = "\u{feff}# rules\nTB373FU = a\ntb375fc: \"ZUI_1.0_ST\", 'ZUI_2.0_ST' , ,ZUI_3.0_ST // old\n";
    assert_eq!(
        blocked_versions_for_model("TB375FC", rules),
        strings(&["ZUI_1.0_ST", "ZUI_2.0_ST", "ZUI_3.0_ST"])
    );
    assert_eq!(blocked_versions_for_model("TB373FU", rules), strings(&["a"]));
    assert!(blocked_versions_for_model("TB365FC", rules).is_empty());
}

#[test]
fn only_the_first_line_of_a_model_counts() {
    let rules = "TB375FC: A\nTB375FC: B\n";
    assert_eq!(blocked_versions_for_model("TB375FC", rules), strings(&["A"]));
}

#[test]
fn model_is_the_first_supported_one_named() {
    assert_eq!(extract_model("XX TB373FU YY TB375FC"), Some("TB375FC".to_string()));
    assert_eq!(extract_model("NOTHING HERE"), None);
}

#[test]
fn version_number_part_needs_a_digit_and_a_dot() {
    let (n, p) = take_version_number_part(&chars("16.0.123_ST")).unwrap();
    assert_eq!(n, 8);
    assert_eq!(text(&p), "16.0.123");
    assert!(take_version_number_part(&chars("16_ST")).is_none());
    assert!(take_version_number_part(&chars("._ST")).is_none());
    assert!(take_version_number_part(&chars("")).is_none());
}

#[test]
fn upper_run_stops_at_the_first_other_char() {
    assert_eq!(text(&take_upper_run(&chars("ST_X"))), "ST");
    assert_eq!(text(&take_upper_run(&chars("st"))), "");
}

#[test]
fn version_is_found_after_a_marker() {
    assert_eq!(
        extract_version("JUNK ZUI_16.0.123_ST TAIL"),
        Some("ZUI_16.0.123_ST".to_string())
    );
    assert_eq!(
        extract_version("ZUI_16.0.1_ST AND ZUXOS_1.1.2_ROW"),
        Some("ZUXOS_1.1.2_ROW".to_string())
    );
    assert_eq!(extract_version("ZUI_16_ST ZUI_17.0_"), None);
    assert_eq!(extract_version("ZUI_X ZUI_17.1_AB"), Some("ZUI_17.1_AB".to_string()));
}

#[test]
fn region_from_tokens_and_version() {
    assert_eq!(extract_region("A PRC_OPEN B", None), RomRegion::Prc);
    assert_eq!(extract_region("A ROW_OPEN_USER B", None), RomRegion::Row);
    assert_eq!(extract_region("PRC_OPEN ROW_OPEN", None), RomRegion::Unknown);
    assert_eq!(extract_region("NONE", Some("zuxos_1.0_x")), RomRegion::Prc);
    assert_eq!(extract_region("NONE", Some("ZUI_1.0_X")), RomRegion::Unknown);
}

#[test]
fn blocked_check_matches_a_listed_version() {
    let rules = "TB375FC: zui_16.0.123_st, ZUI_17.0.1_ST";
    let c = check_blocked_firmware("TB375FC", Some("ZUI_16.0.123_ST"), Some(rules));
    assert!(c.checked);
    assert!(c.blocked);
    assert_eq!(c.matched_version, Some("zui_16.0.123_st".to_string()));
    assert_eq!(c.blocked_versions, strings(&["zui_16.0.123_st", "ZUI_17.0.1_ST"]));
    assert_eq!(c.source, block_firmware_rules_url());
    assert_eq!(c.model, "TB375FC");
    assert_eq!(c.version, Some("ZUI_16.0.123_ST".to_string()));
    assert_eq!(c.message, "TB375FC zui_16.0.123_st 버전은 설치 금지 목록에 포함되어 있습니다.");
}

#[test]
fn blocked_check_messages_for_each_case() {
    let none = check_blocked_firmware("TB375FC", Some("V"), None);
    assert!(!none.checked && !none.blocked);
    assert_eq!(none.message, "TB375FC 차단 펌웨어 규칙을 온라인에서 확인하지 못했습니다.");

    let empty = check_blocked_firmware("TB375FC", Some("V"), Some("TB373FU: X"));
    assert!(empty.checked && !empty.blocked);
    assert_eq!(empty.message, "TB375FC 모델의 설치 금지 버전이 등록되어 있지 않습니다.");

    let other = check_blocked_firmware("TB375FC", Some("V2"), Some("TB375FC: V1"));
    assert!(!other.blocked);
    assert_eq!(other.message, "TB375FC V2 버전은 설치 금지 목록에 포함되어 있지 않습니다.");

    let unknown = check_blocked_firmware("TB375FC", None, Some("TB375FC: V1, V3"));
    assert!(!unknown.blocked);
    assert_eq!(
        unknown.message,
        "TB375FC 설치 금지 버전 2개가 있지만 현재 펌웨어 버전을 감지하지 못했습니다."
    );
}

#[test]
fn rules_validation_errors() {
    match validate_block_firmware_rules("   \n ") {
        Err(LpmError::FileNotFound(m)) => assert_eq!(m, "차단 펌웨어 규칙 응답이 비어 있습니다."),
        other => panic!("unexpected {other:?}"),
    }
    match validate_block_firmware_rules("<!DOCTYPE html><p>x</p>") {
        Err(LpmError::FileNotFound(m)) => assert_eq!(m, "차단 펌웨어 규칙 대신 HTML 응답을 받았습니다."),
        other => panic!("unexpected {other:?}"),
    }
    match validate_block_firmware_rules("OTHER: X") {
        Err(LpmError::FileNotFound(m)) => {
            assert_eq!(m, "차단 펌웨어 규칙에서 지원 모델 항목을 찾지 못했습니다.")
        }
        other => panic!("unexpected {other:?}"),
    }
    assert!(validate_block_firmware_rules("TB361FU: ZUI_1.0_X").is_ok());
}

#[test]
fn refreshed_rules_report_their_size_in_bytes() {
    let rules = "TB375FC: 가";
    assert_eq!(refresh_block_firmware_rules(rules).unwrap(), rules.len());
    assert!(refresh_block_firmware_rules("").is_err());
}

#[test]
fn utf8_length_threshold() {
    assert!(utf8_len_at_least_4(&chars("abcd")));
    assert!(!utf8_len_at_least_4(&chars("abc")));
    assert!(utf8_len_at_least_4(&chars("가b")));
    assert!(!utf8_len_at_least_4(&chars("é")));
}

#[test]
fn platform_before_marker() {
    assert_eq!(
        extract_platform_from_marker("X/MT6789_ANDROID_SCATTER.XML", "_ANDROID_SCATTER.XML"),
        Some("MT6789".to_string())
    );
    assert_eq!(extract_platform_from_marker("MT_ANDROID_SCATTER.XML", "_ANDROID_SCATTER.XML"), None);
    assert_eq!(extract_platform_from_marker("NO MARKER", "_ANDROID_SCATTER.XML"), None);
}

#[test]
fn platform_from_flash_xml() {
    assert_eq!(
        platform_from_flash_xml_text("<scatter>mt6897_Android_scatter.xml</scatter>"),
        Some("MT6897".to_string())
    );
    assert_eq!(
        platform_from_flash_xml_text("<s>mt6768_Android_scatter.x</s>"),
        Some("MT6768".to_string())
    );
    assert_eq!(platform_from_flash_xml_text("<s/>"), None);
}

#[test]
fn platform_from_scatter_names() {
    assert_eq!(
        platform_from_scatter_file_name("mt6789_Android_scatter.xml"),
        Some("MT6789".to_string())
    );
    assert_eq!(platform_from_scatter_file_name("MT67_Android_scatter.x"), Some("MT67".to_string()));
    assert_eq!(platform_from_scatter_file_name("MT6_Android_scatter.x"), None);
    assert_eq!(platform_from_scatter_file_name("readme.txt"), None);
    let names = strings(&["mt6897_Android_scatter.xml", "MT6789_Android_scatter.x", "a.txt"]);
    assert_eq!(infer_platform_from_scatter_names(&names), Some("MT6789".to_string()));
    assert_eq!(infer_platform_from_scatter_names(&strings(&["a.txt"])), None);
}

#[test]
fn lexicographic_order_of_names() {
    assert!(lex_lt_exec(&chars("MT6789"), &chars("MT6897")));
    assert!(lex_lt_exec(&chars("MT67"), &chars("MT678")));
    assert!(!lex_lt_exec(&chars("MT6897"), &chars("MT6789")));
    assert!(!lex_lt_exec(&chars("A"), &chars("A")));
}

#[test]
fn scatter_source_prefers_xml_then_the_least_name() {
    let names = strings(&["b_Android_scatter.x", "z_Android_scatter.xml", "a_Android_scatter.XML"]);
    assert_eq!(find_any_scatter_source(&names), Some(2));
    let only_x = strings(&["b_Android_scatter.x", "a_android_scatter.X", "c.txt"]);
    assert_eq!(find_any_scatter_source(&only_x), Some(1));
    assert_eq!(find_any_scatter_source(&strings(&["c.txt"])), None);
}

#[test]
fn scatter_file_names_and_errors() {
    assert_eq!(scatter_xml_file_name("MT6789"), "MT6789_Android_scatter.xml");
    assert_eq!(scatter_x_file_name("MT6789"), "MT6789_Android_scatter.x");
    match scatter_not_found_error("MT6789") {
        LpmError::FileNotFound(m) => {
            assert_eq!(m, "MT6789_Android_scatter.xml 또는 MT6789_Android_scatter.x")
        }
        other => panic!("unexpected {other:?}"),
    }
    assert!(matches!(scatter_source_format(Some("XML"), "p"), Ok(ScatterFormat::Xml)));
    assert!(matches!(scatter_source_format(Some("x"), "p"), Ok(ScatterFormat::Encrypted)));
    match scatter_source_format(Some("txt"), "/f/a.txt") {
        Err(LpmError::InvalidFirmwareFolder(m)) => {
            assert_eq!(m, "지원하지 않는 scatter 파일입니다: /f/a.txt")
        }
        other => panic!("unexpected {other:?}"),
    }
    assert!(scatter_source_format(None, "p").is_err());
}

#[test]
fn firmware_is_identified_from_vendor_boot_text() {
    let text = "junk tb375fc stuff zui_16.0.123_st prc_open";
    let id = identify_firmware(text, Some("TB375FC: ZUI_16.0.123_ST")).unwrap();
    assert_eq!(id.model, "TB375FC");
    assert_eq!(id.version, Some("ZUI_16.0.123_ST".to_string()));
    assert_eq!(id.region, RomRegion::Prc);
    assert!(id.blocked_firmware_check.blocked);
}

#[test]
fn unsupported_firmware_is_refused() {
    match identify_firmware("nothing to see", None) {
        Err(LpmError::InvalidFirmwareFolder(m)) => {
            assert_eq!(m, "vendor_boot-debug.img에서 지원 모델명을 찾지 못했습니다.")
        }
        other => panic!("unexpected {other:?}"),
    }
}
