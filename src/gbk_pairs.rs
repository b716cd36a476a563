//! Byte-pair heuristics for GBK-encoded Chinese text.
use vstd::prelude::*;

verus! {

/// True when `(lead, trail)` lies in the GB2312 level-2 hanzi zone of GBK.
pub open spec fn is_gbk_hanzi_pair(lead: u8, trail: u8) -> bool {
    0xB0 <= lead <= 0xF7 && 0xA1 <= trail <= 0xFE
}

/// The number of indices `i` such that the bytes at `i` and `i + 1` form a hanzi
/// pair. Windows overlap: every index is inspected.
pub open spec fn gbk_pair_count(s: Seq<u8>) -> nat
    decreases s.len(),
{
    if s.len() < 2 {
        0
    } else {
        (if is_gbk_hanzi_pair(s[0], s[1]) {
            1nat
        } else {
            0nat
        }) + gbk_pair_count(s.drop_first())
    }
}

/// The longest run of adjacent hanzi pairs met by a scan that steps over a whole
/// pair on a match and over one byte otherwise, `run` being the length of the run
/// in progress when the scan reaches `s`.
pub open spec fn gbk_run_scan(s: Seq<u8>, run: nat) -> nat
    decreases s.len(),
{
    if s.len() < 2 {
        run
    } else if is_gbk_hanzi_pair(s[0], s[1]) {
        gbk_run_scan(s.skip(2), run + 1)
    } else {
        let rest = gbk_run_scan(s.drop_first(), 0);
        if run >= rest {
            run
        } else {
            rest
        }
    }
}

/// The longest run of adjacent, non-overlapping hanzi pairs in `s`.
pub open spec fn gbk_max_run(s: Seq<u8>) -> nat {
    gbk_run_scan(s, 0)
}

proof fn lemma_run_scan_at_least(s: Seq<u8>, run: nat)
    ensures
        gbk_run_scan(s, run) >= run,
    decreases s.len(),
{
    if s.len() >= 2 {
        if is_gbk_hanzi_pair(s[0], s[1]) {
            lemma_run_scan_at_least(s.skip(2), run + 1);
        }
    }
}

proof fn lemma_pair_count_drop_first(s: Seq<u8>)
    requires
        s.len() >= 1,
    ensures
        gbk_pair_count(s.drop_first()) <= gbk_pair_count(s),
{
    if s.len() < 2 {
        assert(s.drop_first().len() < 2);
    }
}

proof fn lemma_run_scan_bounded(s: Seq<u8>, run: nat)
    ensures
        gbk_run_scan(s, run) <= run + gbk_pair_count(s),
    decreases s.len(),
{
    if s.len() >= 2 {
        if is_gbk_hanzi_pair(s[0], s[1]) {
            lemma_run_scan_bounded(s.skip(2), run + 1);
            assert(s.drop_first().drop_first() =~= s.skip(2));
            lemma_pair_count_drop_first(s.drop_first());
        } else {
            lemma_run_scan_bounded(s.drop_first(), 0);
        }
    }
}

/// The longest run of adjacent hanzi pairs never exceeds the number of hanzi
/// pairs: `max_consecutive_gbk_pairs(b) <= count_chinese_gbk_pairs(b)` for every
/// buffer `b`.
pub proof fn lemma_max_run_le_pair_count(s: Seq<u8>)
    ensures
        gbk_max_run(s) <= gbk_pair_count(s),
{
    lemma_run_scan_bounded(s, 0);
}

/// True when the bytes at `i` and `i + 1` form a hanzi pair.
fn pair_at(bytes: &[u8], i: usize) -> (r: bool)
    requires
        i + 1 < bytes@.len(),
    ensures
        r == is_gbk_hanzi_pair(bytes@[i as int], bytes@[i + 1]),
{
    let lead = bytes[i];
    let trail = bytes[i + 1];
    0xB0 <= lead && lead <= 0xF7 && 0xA1 <= trail && trail <= 0xFE
}

/// Counts the hanzi pairs of `bytes`, inspecting a pair at every index.
pub fn count_chinese_gbk_pairs(bytes: &[u8]) -> (r: usize)
    ensures
        r == gbk_pair_count(bytes@),
{
    let mut i: usize = 0;
    let mut n: usize = 0;
    assert(bytes@.skip(0) =~= bytes@);
    while bytes.len() - i >= 2
        invariant
            i <= bytes.len(),
            n <= i,
            n + gbk_pair_count(bytes@.skip(i as int)) == gbk_pair_count(bytes@),
        decreases bytes.len() - i,
    {
        assert(bytes@.skip(i as int).drop_first() =~= bytes@.skip(i + 1));
        if pair_at(bytes, i) {
            n = n + 1;
        }
        i = i + 1;
    }
    n
}

/// The longest run of adjacent hanzi pairs, scanning two bytes ahead after a
/// match and one byte ahead otherwise.
pub fn max_consecutive_gbk_pairs(bytes: &[u8]) -> (r: usize)
    ensures
        r == gbk_max_run(bytes@),
{
    let mut i: usize = 0;
    let mut run: usize = 0;
    let mut best: usize = 0;
    assert(bytes@.skip(0) =~= bytes@);
    while bytes.len() - i >= 2
        invariant
            i <= bytes.len(),
            run <= best <= i,
            gbk_max_run(bytes@) == (if best >= gbk_run_scan(bytes@.skip(i as int), run as nat) {
                best as nat
            } else {
                gbk_run_scan(bytes@.skip(i as int), run as nat)
            }),
        decreases bytes.len() - i,
    {
        let ghost rest = bytes@.skip(i as int);
        if pair_at(bytes, i) {
            assert(rest.skip(2) =~= bytes@.skip(i + 2));
            proof {
                lemma_run_scan_at_least(rest.skip(2), (run + 1) as nat);
            }
            run = run + 1;
            if run > best {
                best = run;
            }
            i = i + 2;
        } else {
            assert(rest.drop_first() =~= bytes@.skip(i + 1));
            run = 0;
            i = i + 1;
        }
    }
    best
}

} // verus!
