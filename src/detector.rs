//! The encoding verdict of one buffer.
use vstd::prelude::*;
use vstd::utf8::*;
use crate::config::{Config, Strategy, valid_locale_hint, hint_view};
use crate::gbk_pairs::{gbk_pair_count, gbk_max_run, count_chinese_gbk_pairs, max_consecutive_gbk_pairs};

verus! {

/// Confidence, in hundredths, of a certain verdict.
pub const CERTAIN: u8 = 100;

/// Confidence, in hundredths, of a guess the guesser is not confident of.
pub const UNSURE: u8 = 50;

/// Confidence, in hundredths, of a heuristic verdict that is not GBK.
pub const LOW: u8 = 0;

/// The encoding a buffer was judged to hold.
#[derive(Clone, Copy, Debug, PartialEq, Eq, Structural)]
pub enum EncodingLabel {
    Utf8,
    Gbk,
    Other,
}

/// What the detector concluded of one buffer.
pub struct EncodingVerdict {
    pub label: EncodingLabel,
    /// Confidence in hundredths: 100 stands for 1.0.
    pub confidence: u8,
    /// The lower-cased name the statistical guesser gave; empty when it was not
    /// asked.
    pub guessed_name: Vec<u8>,
    /// Hanzi pairs counted over the raw bytes; 0 for UTF-8.
    pub total_chinese_count: usize,
    /// Longest run of hanzi pairs over the raw bytes; 0 for UTF-8.
    pub max_consecutive_run: usize,
}

/// `b` with ASCII upper-case letters lowered.
pub open spec fn ascii_lower_byte(b: u8) -> u8 {
    if 0x41 <= b <= 0x5a {
        (b + 0x20) as u8
    } else {
        b
    }
}

/// `s` with ASCII upper-case letters lowered.
pub open spec fn ascii_lower(s: Seq<u8>) -> Seq<u8> {
    s.map_values(|b: u8| ascii_lower_byte(b))
}

/// The name `gbk`, in lower case.
pub open spec fn gbk_name() -> Seq<u8> {
    seq![0x67u8, 0x62u8, 0x6bu8]
}

/// The name and confidence flag that chardetng guesses for `content`, given the
/// locale hint `tld`.
pub uninterp spec fn chardet_guess(content: Seq<u8>, tld: Option<Seq<u8>>) -> (Seq<u8>, bool);

/// Relies on chardetng's `EncodingDetector` (`new`, one `feed` of the whole buffer
/// marked last, then `guess_assess` with UTF-8 not allowed) and on encoding_rs's
/// `Encoding::name`: the guessed encoding's name and whether chardetng judged it
/// better than some other candidate. `guess_assess` panics on a hint holding
/// non-ASCII, a period or an upper-case letter.
#[verifier::external_body]
fn guess_encoding(content: &[u8], tld: &Option<Vec<u8>>) -> (r: (Vec<u8>, bool))
    requires
        tld matches Some(t) ==> valid_locale_hint(t@),
    ensures
        r.0@ == chardet_guess(content@, hint_view(*tld)).0,
        r.1 == chardet_guess(content@, hint_view(*tld)).1,
{
    let mut detector = chardetng::EncodingDetector::new();
    detector.feed(content, true);
    let (encoding, confident) = detector.guess_assess(tld.as_deref(), false);
    (encoding.name().as_bytes().to_vec(), confident)
}

/// Lowers the ASCII upper-case letters of `s`.
pub fn ascii_lowercase(s: &[u8]) -> (r: Vec<u8>)
    ensures
        r@ == ascii_lower(s@),
{
    let mut r: Vec<u8> = Vec::new();
    let mut i: usize = 0;
    while i < s.len()
        invariant
            i <= s.len(),
            r@ == ascii_lower(s@.take(i as int)),
        decreases s.len() - i,
    {
        let b = s[i];
        let l = if 0x41 <= b && b <= 0x5a {
            b + 0x20
        } else {
            b
        };
        r.push(l);
        assert(ascii_lower(s@.take(i + 1)) =~= ascii_lower(s@.take(i as int)).push(l));
        i = i + 1;
    }
    assert(s@.take(i as int) =~= s@);
    r
}

/// True when `name` is `gbk` in lower case.
fn is_gbk_name(name: &[u8]) -> (r: bool)
    ensures
        r == (name@ == gbk_name()),
{
    if name.len() == 3 && name[0] == 0x67 && name[1] == 0x62 && name[2] == 0x6b {
        assert(name@ =~= gbk_name());
        true
    } else {
        false
    }
}

/// True when both hanzi-pair thresholds of `config` are met.
pub open spec fn counts_met(total: nat, run: nat, config: Config) -> bool {
    total >= config.min_total_count && run >= config.min_consecutive_run
}

/// The heuristic verdict on a buffer that is not valid UTF-8: GBK exactly when
/// both hanzi-pair thresholds are met.
pub fn heuristic_verdict(bytes: &[u8], config: &Config) -> (r: EncodingVerdict)
    ensures
        r.total_chinese_count == gbk_pair_count(bytes@),
        r.max_consecutive_run == gbk_max_run(bytes@),
        r.guessed_name@ == Seq::<u8>::empty(),
        (r.label == EncodingLabel::Gbk) == counts_met(
            gbk_pair_count(bytes@),
            gbk_max_run(bytes@),
            *config,
        ),
        r.label != EncodingLabel::Gbk ==> r.label == EncodingLabel::Other && r.confidence == LOW,
        r.label == EncodingLabel::Gbk ==> r.confidence == CERTAIN,
{
    let total = count_chinese_gbk_pairs(bytes);
    let run = max_consecutive_gbk_pairs(bytes);
    let gbk = total >= config.min_total_count && run >= config.min_consecutive_run;
    EncodingVerdict {
        label: if gbk {
            EncodingLabel::Gbk
        } else {
            EncodingLabel::Other
        },
        confidence: if gbk {
            CERTAIN
        } else {
            LOW
        },
        guessed_name: Vec::new(),
        total_chinese_count: total,
        max_consecutive_run: run,
    }
}

/// The statistical verdict on a buffer that is not valid UTF-8, given the name
/// the guesser returned and whether it was confident: confidence 1.0 when
/// confident and 0.5 otherwise, and GBK exactly when the name is `gbk` in any
/// case and the confidence reaches `config.min_confidence`.
pub fn statistical_verdict(
    bytes: &[u8],
    config: &Config,
    name: &[u8],
    confident: bool,
) -> (r: EncodingVerdict)
    ensures
        r.total_chinese_count == gbk_pair_count(bytes@),
        r.max_consecutive_run == gbk_max_run(bytes@),
        r.guessed_name@ == ascii_lower(name@),
        r.confidence == guess_confidence(confident),
        (r.label == EncodingLabel::Gbk) == (ascii_lower(name@) == gbk_name() && r.confidence
            >= config.min_confidence),
        r.label != EncodingLabel::Gbk ==> r.label == EncodingLabel::Other,
{
    let total = count_chinese_gbk_pairs(bytes);
    let run = max_consecutive_gbk_pairs(bytes);
    let lower = ascii_lowercase(name);
    let confidence = if confident {
        CERTAIN
    } else {
        UNSURE
    };
    let gbk = is_gbk_name(lower.as_slice()) && confidence >= config.min_confidence;
    EncodingVerdict {
        label: if gbk {
            EncodingLabel::Gbk
        } else {
            EncodingLabel::Other
        },
        confidence,
        guessed_name: lower,
        total_chinese_count: total,
        max_consecutive_run: run,
    }
}

/// The confidence, in hundredths, that goes with the guesser's flag.
pub open spec fn guess_confidence(confident: bool) -> u8 {
    if confident {
        CERTAIN
    } else {
        UNSURE
    }
}

/// The label the detector gives to `b`.
pub open spec fn detected_label(b: Seq<u8>, config: Config) -> EncodingLabel {
    if valid_utf8(b) {
        EncodingLabel::Utf8
    } else {
        let gbk = match config.strategy {
            Strategy::Heuristic => counts_met(gbk_pair_count(b), gbk_max_run(b), config),
            Strategy::Statistical => {
                let guess = chardet_guess(b, hint_view(config.locale_hint));
                ascii_lower(guess.0) == gbk_name() && guess_confidence(guess.1)
                    >= config.min_confidence
            },
        };
        if gbk {
            EncodingLabel::Gbk
        } else {
            EncodingLabel::Other
        }
    }
}

/// The confidence, in hundredths, that the detector gives to its label for `b`.
pub open spec fn detected_confidence(b: Seq<u8>, config: Config) -> u8 {
    if valid_utf8(b) {
        CERTAIN
    } else {
        match config.strategy {
            Strategy::Heuristic => if detected_label(b, config) == EncodingLabel::Gbk {
                CERTAIN
            } else {
                LOW
            },
            Strategy::Statistical => guess_confidence(
                chardet_guess(b, hint_view(config.locale_hint)).1,
            ),
        }
    }
}

/// The hanzi-pair count the verdict on `b` carries.
pub open spec fn detected_total(b: Seq<u8>) -> nat {
    if valid_utf8(b) {
        0
    } else {
        gbk_pair_count(b)
    }
}

/// The longest hanzi-pair run the verdict on `b` carries.
pub open spec fn detected_run(b: Seq<u8>) -> nat {
    if valid_utf8(b) {
        0
    } else {
        gbk_max_run(b)
    }
}

/// The lower-cased guesser's name the verdict on `b` carries: empty unless the
/// statistical guesser was asked.
pub open spec fn detected_name(b: Seq<u8>, config: Config) -> Seq<u8> {
    if !valid_utf8(b) && config.strategy == Strategy::Statistical {
        ascii_lower(chardet_guess(b, hint_view(config.locale_hint)).0)
    } else {
        seq![]
    }
}

/// The verdict on `bytes`: valid UTF-8 is always UTF-8 with confidence 1.0 and
/// no further scanning; otherwise the configured strategy decides.
pub fn detect(bytes: &[u8], config: &Config) -> (r: EncodingVerdict)
    requires
        config.wf(),
    ensures
        r.label == detected_label(bytes@, *config),
        r.confidence == detected_confidence(bytes@, *config),
        r.total_chinese_count == detected_total(bytes@),
        r.max_consecutive_run == detected_run(bytes@),
        r.guessed_name@ == detected_name(bytes@, *config),
{
    if crate::unicode::is_valid_utf8(bytes) {
        return EncodingVerdict {
            label: EncodingLabel::Utf8,
            confidence: CERTAIN,
            guessed_name: Vec::new(),
            total_chinese_count: 0,
            max_consecutive_run: 0,
        };
    }
    match config.strategy {
        Strategy::Heuristic => heuristic_verdict(bytes, config),
        Strategy::Statistical => {
            let (name, confident) = guess_encoding(bytes, &config.locale_hint);
            statistical_verdict(bytes, config, name.as_slice(), confident)
        },
    }
}

} // verus!
