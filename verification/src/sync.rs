//! Sync-tone detection: the decision rule on a magnitude spectrum, and the
//! sliding scan that enumerates sync positions across a recording.
//!
//! The frequency transform itself runs outside the library (it is
//! floating-point work); a driver computes the magnitude spectrum of each
//! analysis chunk in integer units and hands the decision and the scan to
//! the functions here.

use vstd::prelude::*;

verus! {

/// Length of one analysis chunk, in samples.
pub const CHUNK_SIZE: usize = 2048;

/// The calibration tone sits at this frequency, in Hz.
pub const TARGET_FREQ_HZ: u32 = 1200;

/// A spectrum peak counts as the sync tone when it exceeds the mean
/// magnitude by this factor.
pub const SYNC_THRESHOLD_MULTIPLIER: u64 = 10;

/// Sum of a sequence of magnitudes.
pub open spec fn spec_sum(s: Seq<u64>) -> int
    decreases s.len(),
{
    if s.len() == 0 {
        0
    } else {
        spec_sum(s.drop_last()) + s.last()
    }
}

/// The sum of `n` magnitudes is at most `n` times the largest possible one.
proof fn lemma_sum_bound(s: Seq<u64>)
    ensures
        0 <= spec_sum(s) <= s.len() * u64::MAX,
    decreases s.len(),
{
    if s.len() == 0 {
    } else {
        lemma_sum_bound(s.drop_last());
        vstd::arithmetic::mul::lemma_mul_is_distributive_add_other_way(
            u64::MAX as int,
            s.len() - 1,
            1,
        );
    }
}

/// The spectrum bin nearest the sync frequency: `TARGET_FREQ_HZ` divided by
/// the bin width `sample_rate / CHUNK_SIZE`, rounded to the nearest integer.
pub open spec fn spec_target_bin(sample_rate: u32) -> int {
    (2 * TARGET_FREQ_HZ * CHUNK_SIZE + sample_rate) / (2 * sample_rate)
}

/// Computes the spectrum bin nearest the sync frequency.
pub fn target_bin(sample_rate: u32) -> (bin: usize)
    requires
        sample_rate >= 1,
    ensures
        bin == spec_target_bin(sample_rate),
{
    proof {
        assert(2 * (TARGET_FREQ_HZ as int) * (CHUNK_SIZE as int) == 4_915_200);
    }
    let num: u64 = 2 * (TARGET_FREQ_HZ as u64) * (CHUNK_SIZE as u64) + (sample_rate as u64);
    let den: u64 = 2 * (sample_rate as u64);
    proof {
        assert(num <= 4_299_882_495);
        vstd::arithmetic::div_mod::lemma_div_is_ordered_by_denominator(num as int, 2, den as int);
        vstd::arithmetic::div_mod::lemma_div_is_ordered(num as int, 4_299_882_495, 2);
    }
    (num / den) as usize
}

/// The sync-tone decision on a magnitude spectrum: the tone is present when
/// the target bin exists and its magnitude exceeds the mean magnitude times
/// the multiplier (compared as `peak * count > sum * multiplier`).
pub open spec fn spec_tone_present(mags: Seq<u64>, target_bin: int, multiplier: u64) -> bool {
    &&& 0 <= target_bin < mags.len()
    &&& mags[target_bin] * mags.len() > spec_sum(mags) * multiplier
}

/// Decides whether the sync tone is present in a magnitude spectrum.
///
/// A target bin beyond the spectrum yields `false`; otherwise the peak at
/// the target bin is compared against the mean magnitude scaled by the
/// multiplier, exactly as `spec_tone_present` states.
pub fn sync_tone_present(magnitudes: &[u64], target_bin: usize, multiplier: u64) -> (r: bool)
    requires
        magnitudes@.len() <= 0x1_0000_0000,
        multiplier <= 0xffff,
    ensures
        r == spec_tone_present(magnitudes@, target_bin as int, multiplier),
{
    let n: usize = magnitudes.len();
    if target_bin >= n {
        return false;
    }
    let peak: u128 = magnitudes[target_bin] as u128;
    let mut sum: u128 = 0;
    let mut i: usize = 0;
    while i < n
        invariant
            n == magnitudes@.len(),
            n <= 0x1_0000_0000,
            i <= n,
            sum == spec_sum(magnitudes@.take(i as int)),
            sum <= i * (u64::MAX as int),
        decreases n - i,
    {
        proof {
            lemma_sum_bound(magnitudes@.take(i as int));
            assert(magnitudes@.take(i + 1).drop_last() =~= magnitudes@.take(i as int));
            vstd::arithmetic::mul::lemma_mul_is_distributive_add_other_way(
                u64::MAX as int,
                i as int,
                1,
            );
            vstd::arithmetic::mul::lemma_mul_inequality(i + 1, n as int, u64::MAX as int);
        }
        sum = sum + (magnitudes[i] as u128);
        i = i + 1;
    }
    proof {
        assert(magnitudes@.take(n as int) =~= magnitudes@);
        lemma_sum_bound(magnitudes@);
        vstd::arithmetic::mul::lemma_mul_upper_bound(
            peak as int,
            u64::MAX as int,
            n as int,
            0x1_0000_0000,
        );
        vstd::arithmetic::mul::lemma_mul_inequality(
            spec_sum(magnitudes@),
            0x1_0000_0000 * (u64::MAX as int),
            multiplier as int,
        );
        vstd::arithmetic::mul::lemma_mul_upper_bound(
            spec_sum(magnitudes@),
            0x1_0000_0000 * (u64::MAX as int),
            multiplier as int,
            0xffff,
        );
    }
    peak * (n as u128) > sum * (multiplier as u128)
}

/// The sliding sync scan over a recording of `len` samples.
///
/// The scan analyzes one `CHUNK_SIZE`-sample chunk at a time. On a
/// detection it records the chunk position and skips ahead two chunk
/// lengths, so one tone is not reported twice; on a miss it advances a
/// quarter chunk, overlapping windows for robustness. The driver asks
/// `current` for the next chunk to analyze and reports the outcome through
/// `step`; the scan is over when `current` is `None`.
pub struct SyncScan {
    pos: usize,
    len: usize,
    positions: Vec<usize>,
}

impl SyncScan {
    /// Positions are chunk starts within bounds, strictly ascending, and all
    /// lie behind the cursor.
    pub closed spec fn wf(&self) -> bool {
        &&& forall|i: int|
            0 <= i < self.positions@.len() ==> #[trigger] self.positions@[i] + CHUNK_SIZE
                <= self.len
        &&& forall|i: int, j: int|
            0 <= i < j < self.positions@.len() ==> #[trigger] self.positions@[i]
                < #[trigger] self.positions@[j]
        &&& self.positions@.len() > 0 ==> self.positions@.last() < self.pos
        &&& self.pos <= self.len
    }

    /// The recorded sync positions so far.
    pub closed spec fn spec_positions(&self) -> Seq<usize> {
        self.positions@
    }

    /// The cursor: the next candidate chunk start.
    pub closed spec fn spec_pos(&self) -> int {
        self.pos as int
    }

    /// The length of the recording under scan.
    pub closed spec fn spec_len(&self) -> int {
        self.len as int
    }

    /// Starts a scan over a recording of `len` samples.
    pub fn new(len: usize) -> (scan: Self)
        ensures
            scan.wf(),
            scan.spec_positions() == Seq::<usize>::empty(),
            scan.spec_pos() == 0,
            scan.spec_len() == len,
    {
        SyncScan { pos: 0, len, positions: Vec::new() }
    }

    /// The next chunk to analyze: `Some(start)` while a full chunk fits at
    /// the cursor, `None` when the scan is over.
    pub fn current(&self) -> (c: Option<usize>)
        requires
            self.wf(),
        ensures
            c matches Some(start) ==> start == self.spec_pos() && start + CHUNK_SIZE
                <= self.spec_len(),
            c is None <==> self.spec_pos() + CHUNK_SIZE > self.spec_len(),
    {
        if self.len >= CHUNK_SIZE && self.pos <= self.len - CHUNK_SIZE {
            Some(self.pos)
        } else {
            None
        }
    }

    /// Records the outcome of analyzing the current chunk and advances the
    /// cursor: two chunk lengths past a detection, a quarter chunk past a
    /// miss, clamped to the end of the recording.
    pub fn step(&mut self, detected: bool)
        requires
            old(self).wf(),
            old(self).spec_pos() + CHUNK_SIZE <= old(self).spec_len(),
        ensures
            final(self).wf(),
            final(self).spec_len() == old(self).spec_len(),
            detected ==> final(self).spec_positions() == old(self).spec_positions().push(
                old(self).spec_pos() as usize,
            ),
            !detected ==> final(self).spec_positions() == old(self).spec_positions(),
            final(self).spec_pos() == vstd::math::min(
                old(self).spec_pos() + if detected {
                    2 * CHUNK_SIZE as int
                } else {
                    CHUNK_SIZE as int / 4
                },
                old(self).spec_len(),
            ),
    {
        let skip: usize = if detected {
            2 * CHUNK_SIZE
        } else {
            CHUNK_SIZE / 4
        };
        if detected {
            self.positions.push(self.pos);
        }
        if self.len - self.pos > skip {
            self.pos = self.pos + skip;
        } else {
            self.pos = self.len;
        }
    }

    /// The sync positions recorded so far, in ascending order.
    pub fn positions(&self) -> (p: &Vec<usize>)
        ensures
            p@ == self.spec_positions(),
    {
        &self.positions
    }

    /// Hands the recorded positions out, consuming the scan.
    pub fn into_positions(self) -> (p: Vec<usize>)
        ensures
            p@ == self.spec_positions(),
    {
        self.positions
    }
}

} // verus!
