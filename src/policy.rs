//! What happens to one file, given its content and the run's settings.
use vstd::prelude::*;
use vstd::utf8::*;
use crate::config::Config;
use crate::conversion::{ConversionError, gbk_strict_decode, gbk_to_utf8};
use crate::detector::{
    EncodingLabel,
    EncodingVerdict,
    CERTAIN,
    counts_met,
    detect,
    detected_confidence,
    detected_label,
    detected_name,
    detected_run,
    detected_total,
};

verus! {

/// Why a file is left as it is.
#[derive(Clone, Copy, Debug, PartialEq, Eq, Structural)]
pub enum SkipReason {
    /// The content is valid UTF-8.
    AlreadyUtf8,
    /// The content is judged to be neither UTF-8 nor GBK.
    NotGbk,
    /// The content looks like GBK, but confidence or hanzi-pair counts fall short.
    BelowThreshold,
}

/// The decision on a file once its content has been judged.
#[derive(Clone, Copy, Debug, PartialEq, Eq, Structural)]
pub enum Decision {
    Skip(SkipReason),
    /// GBK meeting every threshold, in a scan-only run.
    Convertible,
    /// GBK meeting every threshold, to be rewritten as UTF-8.
    Convert,
}

/// True when a GBK verdict clears the confidence and both hanzi-pair thresholds.
pub open spec fn thresholds_met(confidence: u8, total: nat, run: nat, config: Config) -> bool {
    confidence >= config.min_confidence && counts_met(total, run, config)
}

/// The decision on a verdict. UTF-8 content and content judged not to be GBK are
/// left alone. GBK content that meets every threshold is rewritten, or reported
/// in a scan-only run; other GBK content is left alone.
pub open spec fn decision_of(
    label: EncodingLabel,
    confidence: u8,
    total: nat,
    run: nat,
    config: Config,
) -> Decision {
    match label {
        EncodingLabel::Utf8 => Decision::Skip(SkipReason::AlreadyUtf8),
        EncodingLabel::Other => Decision::Skip(SkipReason::NotGbk),
        EncodingLabel::Gbk => if thresholds_met(confidence, total, run, config) {
            if config.scan_only {
                Decision::Convertible
            } else {
                Decision::Convert
            }
        } else {
            Decision::Skip(SkipReason::BelowThreshold)
        },
    }
}

/// The decision on a file whose content is `b`.
pub open spec fn file_decision(b: Seq<u8>, config: Config) -> Decision {
    decision_of(
        detected_label(b, config),
        detected_confidence(b, config),
        detected_total(b),
        detected_run(b),
        config,
    )
}

/// Decides what to do with a file from the verdict on its content.
pub fn decide(verdict: &EncodingVerdict, config: &Config) -> (r: Decision)
    ensures
        r == decision_of(
            verdict.label,
            verdict.confidence,
            verdict.total_chinese_count as nat,
            verdict.max_consecutive_run as nat,
            *config,
        ),
{
    match verdict.label {
        EncodingLabel::Utf8 => Decision::Skip(SkipReason::AlreadyUtf8),
        EncodingLabel::Other => Decision::Skip(SkipReason::NotGbk),
        EncodingLabel::Gbk => {
            if verdict.confidence >= config.min_confidence && verdict.total_chinese_count
                >= config.min_total_count && verdict.max_consecutive_run
                >= config.min_consecutive_run {
                if config.scan_only {
                    Decision::Convertible
                } else {
                    Decision::Convert
                }
            } else {
                Decision::Skip(SkipReason::BelowThreshold)
            }
        },
    }
}

/// The writes that convert one file: first the backup, when there is one, then
/// the new content over the original.
pub struct ConversionPlan {
    /// The bytes to copy to the backup file.
    pub backup: Option<Vec<u8>>,
    /// The UTF-8 content that replaces the original.
    pub content: Vec<u8>,
}

/// Plans the conversion of GBK `content`: its UTF-8 re-encoding and, when
/// `backup` is set, a backup holding the original bytes exactly. Fails with
/// `DecodeFailure`, planning no write, when strict GBK decoding fails.
pub fn plan_conversion(content: &[u8], backup: bool) -> (r: Result<
    ConversionPlan,
    ConversionError,
>)
    ensures
        r.is_ok() == gbk_strict_decode(content@).is_some(),
        r matches Ok(p) ==> {
            &&& p.content@ == encode_utf8(gbk_strict_decode(content@).unwrap())
            &&& p.backup.is_some() == backup
            &&& (p.backup matches Some(b) ==> b@ == content@)
        },
        r matches Err(e) ==> e == ConversionError::DecodeFailure,
{
    match gbk_to_utf8(content) {
        Ok(converted) => {
            let saved = if backup {
                Some(vstd::slice::slice_to_vec(content))
            } else {
                None
            };
            Ok(ConversionPlan { backup: saved, content: converted })
        },
        Err(e) => Err(e),
    }
}

/// What is to become of one file.
pub enum FileAction {
    Skip(SkipReason),
    /// Reported as convertible; nothing is written.
    ReportConvertible,
    Convert(ConversionPlan),
    /// Conversion was due but failed; nothing is written.
    Fail(ConversionError),
}

/// The verdict on a file's content and the action that follows from it.
pub struct FileReport {
    pub verdict: EncodingVerdict,
    pub action: FileAction,
}

/// True when `action` is what `file_decision` calls for on content `b`: the
/// same skip, a report, or a conversion planned as `plan_conversion` plans it,
/// failing exactly when strict GBK decoding fails.
pub open spec fn action_follows(action: FileAction, b: Seq<u8>, config: Config) -> bool {
    match file_decision(b, config) {
        Decision::Skip(reason) => action matches FileAction::Skip(x) && x == reason,
        Decision::Convertible => action matches FileAction::ReportConvertible,
        Decision::Convert => match gbk_strict_decode(b) {
            Some(text) => action matches FileAction::Convert(p) && {
                &&& p.content@ == encode_utf8(text)
                &&& p.backup.is_some() == config.backup
                &&& (p.backup matches Some(bk) ==> bk@ == b)
            },
            None => action matches FileAction::Fail(e) && e == ConversionError::DecodeFailure,
        },
    }
}

/// Judges `content` and decides what becomes of the file that holds it.
pub fn process_content(content: &[u8], config: &Config) -> (r: FileReport)
    requires
        config.wf(),
    ensures
        r.verdict.label == detected_label(content@, *config),
        r.verdict.confidence == detected_confidence(content@, *config),
        r.verdict.total_chinese_count == detected_total(content@),
        r.verdict.max_consecutive_run == detected_run(content@),
        r.verdict.guessed_name@ == detected_name(content@, *config),
        action_follows(r.action, content@, *config),
{
    let verdict = detect(content, config);
    let action = match decide(&verdict, config) {
        Decision::Skip(reason) => FileAction::Skip(reason),
        Decision::Convertible => FileAction::ReportConvertible,
        Decision::Convert => match plan_conversion(content, config.backup) {
            Ok(plan) => FileAction::Convert(plan),
            Err(e) => FileAction::Fail(e),
        },
    };
    FileReport { verdict, action }
}

/// Valid UTF-8 always wins: it is labelled UTF-8 with confidence 1.0 and skipped,
/// so no GBK decoding is planned for it.
pub proof fn lemma_utf8_never_converted(b: Seq<u8>, config: Config)
    requires
        valid_utf8(b),
    ensures
        detected_label(b, config) == EncodingLabel::Utf8,
        detected_confidence(b, config) == CERTAIN,
        file_decision(b, config) == Decision::Skip(SkipReason::AlreadyUtf8),
{
}

/// A second pass converts nothing: the content a conversion writes is judged
/// UTF-8 and skipped.
pub proof fn lemma_second_pass_skips(b: Seq<u8>, config: Config)
    requires
        gbk_strict_decode(b).is_some(),
    ensures
        file_decision(encode_utf8(gbk_strict_decode(b).unwrap()), config) == Decision::Skip(
            SkipReason::AlreadyUtf8,
        ),
{
    encode_utf8_valid_utf8(gbk_strict_decode(b).unwrap());
}

/// The hanzi-pair threshold is a sharp boundary: a verdict one pair short of
/// `min_total_count` is never converted nor reported convertible, while a GBK
/// verdict with exactly `min_total_count` pairs, its run and its confidence
/// meeting their thresholds, is.
pub proof fn lemma_threshold_boundary(
    label: EncodingLabel,
    confidence: u8,
    run: nat,
    config: Config,
)
    requires
        config.min_total_count >= 1,
    ensures
        decision_of(label, confidence, (config.min_total_count - 1) as nat, run, config) matches Decision::Skip(_),
        label == EncodingLabel::Gbk && run >= config.min_consecutive_run && confidence
            >= config.min_confidence ==> !(decision_of(
            label,
            confidence,
            config.min_total_count as nat,
            run,
            config,
        ) matches Decision::Skip(_)),
{
}

} // verus!
