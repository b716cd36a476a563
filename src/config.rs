//! Run-wide settings of a scan.
use vstd::prelude::*;

verus! {

/// How the detector decides that non-UTF-8 content is GBK.
#[derive(Clone, Copy, Debug, PartialEq, Eq, Structural)]
pub enum Strategy {
    /// Byte-pair counts alone: enough hanzi pairs in a long enough run.
    Heuristic,
    /// A statistical charset guesser, seeded with the locale hint.
    Statistical,
}

/// True when `hint` is a lower-case ASCII label without a period, the form a
/// top-level-domain hint takes.
pub open spec fn valid_locale_hint(hint: Seq<u8>) -> bool {
    forall|i: int|
        0 <= i < hint.len() ==> {
            let b = #[trigger] hint[i];
            b < 0x80 && b != 0x2e && !(0x41 <= b <= 0x5a)
        }
}

/// The view of an optional locale hint.
pub open spec fn hint_view(hint: Option<Vec<u8>>) -> Option<Seq<u8>> {
    match hint {
        Some(h) => Some(h@),
        None => None,
    }
}

/// Settings of one run. Confidences are in hundredths: 100 stands for 1.0.
pub struct Config {
    /// File extensions to visit, compared without regard to case.
    pub extensions: Vec<String>,
    pub strategy: Strategy,
    /// The lowest confidence, in hundredths, at which a GBK guess is accepted.
    pub min_confidence: u8,
    /// The fewest hanzi pairs a file must hold to be converted.
    pub min_total_count: usize,
    /// The shortest longest-run of hanzi pairs a file must hold to be converted.
    pub min_consecutive_run: usize,
    pub scan_only: bool,
    pub backup: bool,
    pub verbose: bool,
    /// A top-level-domain style hint for the statistical guesser (`cn`, `jp`).
    pub locale_hint: Option<Vec<u8>>,
}

impl Config {
    /// Confidence lies in `[0, 100]` and the locale hint has the form the
    /// guesser accepts.
    pub open spec fn wf(&self) -> bool {
        &&& self.min_confidence <= 100
        &&& (self.locale_hint matches Some(h) ==> valid_locale_hint(h@))
    }

    /// Extensions `c` and `h`; statistical detection accepting confidence 0.8;
    /// at least four hanzi pairs with a run of two; converting in place without
    /// backup; hint `cn`.
    pub fn new() -> (r: Config)
        ensures
            r.wf(),
            r.extensions@.len() == 2,
            r.extensions@[0]@ == seq!['c'],
            r.extensions@[1]@ == seq!['h'],
            r.strategy == Strategy::Statistical,
            r.min_confidence == 80,
            r.min_total_count == 4,
            r.min_consecutive_run == 2,
            !r.scan_only && !r.backup && !r.verbose,
            hint_view(r.locale_hint) == Some(seq![0x63u8, 0x6eu8]),
    {
        let c = "c".to_string();
        let h = "h".to_string();
        proof {
            reveal_strlit("c");
            reveal_strlit("h");
        }
        let hint: Vec<u8> = vec![0x63, 0x6e];
        Config {
            extensions: vec![c, h],
            strategy: Strategy::Statistical,
            min_confidence: 80,
            min_total_count: 4,
            min_consecutive_run: 2,
            scan_only: false,
            backup: false,
            verbose: false,
            locale_hint: Some(hint),
        }
    }
}

/// True when `hint` can seed the statistical guesser: lower-case ASCII without
/// a period.
pub fn is_valid_locale_hint(hint: &[u8]) -> (r: bool)
    ensures
        r == valid_locale_hint(hint@),
{
    let mut i: usize = 0;
    while i < hint.len()
        invariant
            i <= hint.len(),
            valid_locale_hint(hint@.take(i as int)),
        decreases hint.len() - i,
    {
        let b = hint[i];
        if !(b < 0x80 && b != 0x2e && !(0x41 <= b && b <= 0x5a)) {
            assert(!valid_locale_hint(hint@)) by {
                assert(hint@[i as int] == b);
            }
            return false;
        }
        assert(forall|k: int| 0 <= k < i + 1 ==> hint@.take(i + 1)[k] == hint@[k]);
        assert(forall|k: int| 0 <= k < i ==> hint@.take(i as int)[k] == hint@[k]);
        i = i + 1;
    }
    assert(hint@.take(i as int) =~= hint@);
    true
}

} // verus!
