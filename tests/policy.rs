use encoding::{EncoderTrap, Encoding};
use gbk2utf8::config::{Config, Strategy};
use gbk2utf8::conversion::{gbk_to_utf8, utf8_bytes_of, ConversionError};
use gbk2utf8::detector::{statistical_verdict, EncodingLabel, EncodingVerdict};
use gbk2utf8::policy::{decide, plan_conversion, process_content, Decision, FileAction, SkipReason};
use gbk2utf8::selection::{is_listed, is_selected_extension};

const SAMPLE: &str = "中文测试文件";

fn gbk(text: &str) -> Vec<u8> {
    encoding::all::GBK.encode(text, EncoderTrap::Strict).unwrap()
}

fn heuristic() -> Config {
    let mut c = Config::new();
    c.strategy = Strategy::Heuristic;
    c
}

fn written(action: &FileAction) -> (Option<Vec<u8>>, Vec<u8>) {
    match action {
        FileAction::Convert(plan) => (plan.backup.clone(), plan.content.clone()),
        _ => panic!("no conversion planned"),
    }
}

#[test]
fn sample_gbk_bytes() {
    assert_eq!(gbk(SAMPLE), vec![0xd6, 0xd0, 0xce, 0xc4, 0xb2, 0xe2, 0xca, 0xd4, 0xce, 0xc4, 0xbc, 0xfe]);
}

#[test]
fn round_trip_through_conversion() {
    let original = gbk(SAMPLE);
    let report = process_content(&original, &heuristic());
    let (_, content) = written(&report.action);
    assert_ne!(content, original);
    assert_eq!(std::str::from_utf8(&content).unwrap(), SAMPLE);
    assert_eq!(gbk_to_utf8(&original), Ok(SAMPLE.as_bytes().to_vec()));
}

#[test]
fn second_pass_converts_nothing() {
    let c = heuristic();
    let first = process_content(&gbk(SAMPLE), &c);
    let (_, content) = written(&first.action);
    let second = process_content(&content, &c);
    assert_eq!(second.verdict.label, EncodingLabel::Utf8);
    assert!(matches!(second.action, FileAction::Skip(SkipReason::AlreadyUtf8)));
}

#[test]
fn threshold_boundary() {
    let c = heuristic();
    let three = [0xb0, 0xa1, 0xb0, 0xa1, 0x20, 0xb0, 0xa1];
    let report = process_content(&three, &c);
    assert_eq!(report.verdict.total_chinese_count, 3);
    assert!(matches!(report.action, FileAction::Skip(_)));
    let four = [0xb0, 0xa1, 0xb0, 0xa1, 0x20, 0xb0, 0xa1, 0x20, 0xb0, 0xa1];
    let report = process_content(&four, &c);
    assert_eq!(report.verdict.total_chinese_count, 4);
    let (_, content) = written(&report.action);
    assert_eq!(std::str::from_utf8(&content).unwrap(), "啊啊 啊 啊");
}

#[test]
fn backup_holds_original_bytes() {
    let original = gbk(SAMPLE);
    let (backup, content) = match plan_conversion(&original, true) {
        Ok(plan) => (plan.backup, plan.content),
        Err(_) => panic!("decode failed"),
    };
    assert_eq!(backup, Some(original.clone()));
    assert_eq!(content, SAMPLE.as_bytes().to_vec());
    match plan_conversion(&original, false) {
        Ok(plan) => assert_eq!(plan.backup, None),
        Err(_) => panic!("decode failed"),
    }
}

fn tree() -> Vec<(&'static str, &'static str, Vec<u8>)> {
    vec![
        ("a.c", "c", gbk(SAMPLE)),
        ("b.h", "h", b"int b(void);\n".to_vec()),
        ("c.txt", "txt", gbk(SAMPLE)),
    ]
}

#[test]
fn scenario_convert_with_backup() {
    let mut c = heuristic();
    c.backup = true;
    let mut visited = Vec::new();
    for (name, ext, bytes) in tree() {
        if !is_selected_extension(ext, &c.extensions) {
            continue;
        }
        visited.push(name);
        let report = process_content(&bytes, &c);
        match name {
            "a.c" => {
                let (backup, content) = written(&report.action);
                assert_eq!(backup, Some(bytes.clone()));
                assert_eq!(std::str::from_utf8(&content).unwrap(), SAMPLE);
            }
            "b.h" => {
                assert!(matches!(report.action, FileAction::Skip(SkipReason::AlreadyUtf8)));
            }
            _ => unreachable!(),
        }
    }
    assert_eq!(visited, vec!["a.c", "b.h"]);
}

#[test]
fn scenario_scan_only() {
    let mut c = heuristic();
    c.backup = true;
    c.scan_only = true;
    for (name, ext, bytes) in tree() {
        if !is_selected_extension(ext, &c.extensions) {
            assert_eq!(name, "c.txt");
            continue;
        }
        let report = process_content(&bytes, &c);
        match name {
            "a.c" => assert!(matches!(report.action, FileAction::ReportConvertible)),
            "b.h" => assert!(matches!(report.action, FileAction::Skip(SkipReason::AlreadyUtf8))),
            _ => unreachable!(),
        }
    }
}

#[test]
fn three_pairs_skipped_for_insufficient_count() {
    let three = [0xb0, 0xa1, 0xb0, 0xa1, 0x20, 0xb0, 0xa1];
    let c = Config::new();
    let verdict = statistical_verdict(&three, &c, b"GBK", true);
    assert_eq!(verdict.label, EncodingLabel::Gbk);
    assert_eq!(decide(&verdict, &c), Decision::Skip(SkipReason::BelowThreshold));
    let report = process_content(&three, &heuristic());
    assert!(matches!(report.action, FileAction::Skip(_)));
}

#[test]
fn corrupted_gbk_fails_to_decode() {
    let corrupted = vec![0xb0, 0xa1, 0xb0, 0xa1, 0xb0, 0xa1, 0xb0, 0xa1, 0xb0];
    let before = corrupted.clone();
    let report = process_content(&corrupted, &heuristic());
    assert_eq!(report.verdict.label, EncodingLabel::Gbk);
    assert!(matches!(report.action, FileAction::Fail(ConversionError::DecodeFailure)));
    assert_eq!(corrupted, before);
    assert_eq!(gbk_to_utf8(&[0x81, 0x20]), Err(ConversionError::DecodeFailure));
}

#[test]
fn decide_covers_each_outcome() {
    let mut c = Config::new();
    let v = |label, confidence, total, run| EncodingVerdict {
        label,
        confidence,
        guessed_name: Vec::new(),
        total_chinese_count: total,
        max_consecutive_run: run,
    };
    assert_eq!(decide(&v(EncodingLabel::Utf8, 100, 0, 0), &c), Decision::Skip(SkipReason::AlreadyUtf8));
    assert_eq!(decide(&v(EncodingLabel::Other, 100, 9, 9), &c), Decision::Skip(SkipReason::NotGbk));
    assert_eq!(decide(&v(EncodingLabel::Gbk, 100, 4, 2), &c), Decision::Convert);
    assert_eq!(decide(&v(EncodingLabel::Gbk, 50, 4, 2), &c), Decision::Skip(SkipReason::BelowThreshold));
    assert_eq!(decide(&v(EncodingLabel::Gbk, 100, 4, 1), &c), Decision::Skip(SkipReason::BelowThreshold));
    c.scan_only = true;
    assert_eq!(decide(&v(EncodingLabel::Gbk, 100, 4, 2), &c), Decision::Convertible);
}

#[test]
fn utf8_bytes_of_text() {
    assert_eq!(utf8_bytes_of(&"中a".to_string()), vec![0xe4, 0xb8, 0xad, 0x61]);
}

#[test]
fn extensions_compare_without_case() {
    let exts = vec!["c".to_string(), "H".to_string()];
    assert!(is_selected_extension("C", &exts));
    assert!(is_selected_extension("h", &exts));
    assert!(!is_selected_extension("txt", &exts));
    assert!(!is_selected_extension("", &exts));
    assert!(is_selected_extension("É", &vec!["é".to_string()]));
    assert!(is_listed(&"c".to_string(), &exts));
    assert!(!is_listed(&"h".to_string(), &exts));
}
