use gbk2utf8::config::{is_valid_locale_hint, Config, Strategy};
use gbk2utf8::detector::{ascii_lowercase, detect, heuristic_verdict, statistical_verdict, EncodingLabel};

fn heuristic() -> Config {
    let mut c = Config::new();
    c.strategy = Strategy::Heuristic;
    c
}

#[test]
fn config_defaults() {
    let c = Config::new();
    assert_eq!(c.extensions, vec!["c".to_string(), "h".to_string()]);
    assert_eq!(c.strategy, Strategy::Statistical);
    assert_eq!(c.min_confidence, 80);
    assert_eq!(c.min_total_count, 4);
    assert_eq!(c.min_consecutive_run, 2);
    assert!(!c.scan_only && !c.backup && !c.verbose);
    assert_eq!(c.locale_hint, Some(b"cn".to_vec()));
}

#[test]
fn locale_hint_form() {
    assert!(is_valid_locale_hint(b"cn"));
    assert!(is_valid_locale_hint(b""));
    assert!(!is_valid_locale_hint(b"CN"));
    assert!(!is_valid_locale_hint(b"com.cn"));
    assert!(!is_valid_locale_hint(&[0x63, 0xe4]));
}

#[test]
fn valid_utf8_is_always_utf8() {
    let inputs: Vec<Vec<u8>> = vec![
        vec![],
        b"int main() { return 0; }".to_vec(),
        "中文测试文件".as_bytes().to_vec(),
        "浣犲ソ".as_bytes().to_vec(),
    ];
    for strategy in [Strategy::Heuristic, Strategy::Statistical] {
        let mut c = Config::new();
        c.strategy = strategy;
        c.min_total_count = 0;
        c.min_consecutive_run = 0;
        for b in &inputs {
            let v = detect(b, &c);
            assert_eq!(v.label, EncodingLabel::Utf8);
            assert_eq!(v.confidence, 100);
            assert_eq!(v.total_chinese_count, 0);
            assert_eq!(v.max_consecutive_run, 0);
        }
    }
}

#[test]
fn heuristic_needs_both_counts() {
    let c = heuristic();
    let four = [0xb0, 0xa1, 0xb0, 0xa1, 0x20, 0xb0, 0xa1, 0x20, 0xb0, 0xa1];
    let v = heuristic_verdict(&four, &c);
    assert_eq!((v.label, v.confidence, v.total_chinese_count, v.max_consecutive_run), (EncodingLabel::Gbk, 100, 4, 2));
    let scattered = [0xb0, 0xa1, 0x20, 0xb0, 0xa1, 0x20, 0xb0, 0xa1, 0x20, 0xb0, 0xa1];
    let v = heuristic_verdict(&scattered, &c);
    assert_eq!((v.label, v.confidence, v.total_chinese_count, v.max_consecutive_run), (EncodingLabel::Other, 0, 4, 1));
    let v = detect(&scattered, &c);
    assert_eq!(v.label, EncodingLabel::Other);
}

#[test]
fn statistical_verdict_from_guess() {
    let c = Config::new();
    let bytes = [0xd6, 0xd0, 0xce, 0xc4];
    let v = statistical_verdict(&bytes, &c, b"GBK", true);
    assert_eq!((v.label, v.confidence), (EncodingLabel::Gbk, 100));
    assert_eq!(v.guessed_name, b"gbk".to_vec());
    assert_eq!((v.total_chinese_count, v.max_consecutive_run), (3, 2));
    let v = statistical_verdict(&bytes, &c, b"GBK", false);
    assert_eq!((v.label, v.confidence), (EncodingLabel::Other, 50));
    let mut lenient = Config::new();
    lenient.min_confidence = 50;
    let v = statistical_verdict(&bytes, &lenient, b"GBK", false);
    assert_eq!((v.label, v.confidence), (EncodingLabel::Gbk, 50));
    let v = statistical_verdict(&bytes, &c, b"Big5", true);
    assert_eq!((v.label, v.confidence), (EncodingLabel::Other, 100));
    assert_eq!(v.guessed_name, b"big5".to_vec());
}

#[test]
fn statistical_detect_on_gbk_prose() {
    let text = "这是一个用于测试编码检测的中文句子，我们希望检测器能够正确地识别出它是简体中文编码。";
    let (bytes, _, _) = encoding_rs::GBK.encode(text);
    let v = detect(&bytes, &Config::new());
    assert_eq!(v.label, EncodingLabel::Gbk);
    assert_eq!(v.guessed_name, b"gbk".to_vec());
}

#[test]
fn ascii_lowercase_lowers_letters_only() {
    assert_eq!(ascii_lowercase(b"Shift_JIS-2 GBK"), b"shift_jis-2 gbk".to_vec());
    assert_eq!(ascii_lowercase(&[0xc4, 0x40, 0x5b]), vec![0xc4, 0x40, 0x5b]);
}
