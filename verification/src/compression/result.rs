//! Per-file outcome of a batch: sizes, status, timing, the exact compression
//! ratio as a rational, and the aggregate summary a result list folds into.

use vstd::prelude::*;

verus! {

/// How one file ended: compressed, failed with a reason, or skipped with a
/// reason.
#[derive(Clone, Debug)]
pub enum CompressionStatus {
    Success,
    Failed(String),
    Skipped(String),
}

/// The record kept for one input file. Created exactly once per input,
/// immutable thereafter.
#[derive(Clone, Debug)]
pub struct CompressionResult {
    pub input_path: String,
    pub output_path: String,
    pub original_size: u64,
    pub compressed_size: u64,
    pub status: CompressionStatus,
    pub processing_time_ms: u64,
}

impl CompressionResult {
    /// Numerator of the exact compression ratio
    /// `1 - compressed_size / original_size`; zero when the original size is
    /// zero, where the ratio is defined as zero.
    pub open spec fn ratio_num(self) -> int {
        if self.original_size > 0 {
            self.original_size - self.compressed_size
        } else {
            0
        }
    }

    /// Denominator of the exact compression ratio; one when the original
    /// size is zero, so the ratio is zero there.
    pub open spec fn ratio_den(self) -> int {
        if self.original_size > 0 {
            self.original_size as int
        } else {
            1
        }
    }

    /// The ratio scaled to parts per ten thousand and floored; zero when the
    /// original size is zero.
    pub open spec fn spec_ratio_permyriad(self) -> int {
        if self.original_size > 0 {
            10000 - (self.compressed_size as int * 10000) / (self.original_size as int)
        } else {
            0
        }
    }

    /// The shape every failed record has: no output path, both sizes zero,
    /// no elapsed time.
    pub open spec fn failed_shape(self) -> bool {
        &&& self.output_path@.len() == 0
        &&& self.original_size == 0
        &&& self.compressed_size == 0
        &&& self.processing_time_ms == 0
    }

    /// Bytes the compression saved, never negative.
    pub open spec fn spec_space_saved(self) -> int {
        if self.original_size > self.compressed_size {
            self.original_size - self.compressed_size
        } else {
            0
        }
    }

    /// The record of a file that was compressed and written.
    pub fn new(
        input_path: String,
        output_path: String,
        original_size: u64,
        compressed_size: u64,
        processing_time_ms: u64,
    ) -> (r: Self)
        ensures
            r.input_path == input_path,
            r.output_path == output_path,
            r.original_size == original_size,
            r.compressed_size == compressed_size,
            r.status is Success,
            r.processing_time_ms == processing_time_ms,
    {
        CompressionResult {
            input_path,
            output_path,
            original_size,
            compressed_size,
            status: CompressionStatus::Success,
            processing_time_ms,
        }
    }

    /// The record of a file whose processing failed: it carries the reason
    /// and otherwise the empty shape — no output path, zero sizes, zero
    /// elapsed time.
    pub fn failed(input_path: String, error: String) -> (r: Self)
        ensures
            r.input_path == input_path,
            (r.status matches CompressionStatus::Failed(m) && m == error),
            r.failed_shape(),
    {
        CompressionResult {
            input_path,
            output_path: String::new(),
            original_size: 0,
            compressed_size: 0,
            status: CompressionStatus::Failed(error),
            processing_time_ms: 0,
        }
    }

    /// How many bytes the run saved on this file; zero when the output grew.
    pub fn space_saved_bytes(&self) -> (r: u64)
        ensures
            r == self.spec_space_saved(),
    {
        if self.original_size > self.compressed_size {
            self.original_size - self.compressed_size
        } else {
            0
        }
    }

    /// The compression ratio in parts per ten thousand, floored; exact per
    /// [`Self::spec_ratio_permyriad`], negative when the output grew.
    pub fn compression_ratio_permyriad(&self) -> (r: i128)
        ensures
            r == self.spec_ratio_permyriad(),
    {
        if self.original_size == 0 {
            return 0;
        }
        let scaled: u128 = (self.compressed_size as u128) * 10000 / (self.original_size as u128);
        proof {
            vstd::arithmetic::div_mod::lemma_div_is_ordered(
                self.compressed_size as int * 10000,
                0xffff_ffff_ffff_ffff as int * 10000,
                self.original_size as int,
            );
        }
        10000i128 - (scaled as i128)
    }
}

/// The compression ratio `1 - compressed/original` of a record with a
/// positive original size and at least one compressed byte no larger than
/// the original lies in the interval [0, 1): its numerator is the space
/// saved, non-negative and strictly below its denominator, the original
/// size.
pub proof fn lemma_success_ratio_bounds(r: CompressionResult)
    requires
        r.original_size > 0,
        0 < r.compressed_size <= r.original_size,
    ensures
        r.ratio_num() == r.original_size - r.compressed_size,
        r.ratio_den() == r.original_size,
        0 <= r.ratio_num() < r.ratio_den(),
        r.spec_space_saved() == r.ratio_num(),
{
}

/// What a result list folds into: totals, savings and status counts.
#[derive(Clone, Copy, Debug)]
pub struct BatchSummary {
    pub file_count: usize,
    pub total_original: u128,
    pub total_compressed: u128,
    pub total_saved: u128,
    pub success_count: usize,
    pub failed_count: usize,
    pub skipped_count: usize,
}

/// Sum of the original sizes of `results`.
pub open spec fn sum_original(results: Seq<CompressionResult>) -> int
    decreases results.len(),
{
    if results.len() == 0 {
        0
    } else {
        sum_original(results.drop_last()) + results.last().original_size
    }
}

/// Sum of the compressed sizes of `results`.
pub open spec fn sum_compressed(results: Seq<CompressionResult>) -> int
    decreases results.len(),
{
    if results.len() == 0 {
        0
    } else {
        sum_compressed(results.drop_last()) + results.last().compressed_size
    }
}

/// How many of `results` succeeded.
pub open spec fn count_success(results: Seq<CompressionResult>) -> int
    decreases results.len(),
{
    if results.len() == 0 {
        0
    } else {
        count_success(results.drop_last()) + if results.last().status is Success {
            1int
        } else {
            0int
        }
    }
}

/// How many of `results` failed.
pub open spec fn count_failed(results: Seq<CompressionResult>) -> int
    decreases results.len(),
{
    if results.len() == 0 {
        0
    } else {
        count_failed(results.drop_last()) + if results.last().status is Failed {
            1int
        } else {
            0int
        }
    }
}

/// How many of `results` were skipped.
pub open spec fn count_skipped(results: Seq<CompressionResult>) -> int
    decreases results.len(),
{
    if results.len() == 0 {
        0
    } else {
        count_skipped(results.drop_last()) + if results.last().status is Skipped {
            1int
        } else {
            0int
        }
    }
}

impl BatchSummary {
    /// Folds a result list into its summary: exact totals of original and
    /// compressed bytes, the bytes saved overall (never negative), and the
    /// count of each status.
    pub fn of_results(results: &Vec<CompressionResult>) -> (r: BatchSummary)
        ensures
            r.file_count == results@.len(),
            r.total_original == sum_original(results@),
            r.total_compressed == sum_compressed(results@),
            r.total_saved == if sum_original(results@) > sum_compressed(results@) {
                sum_original(results@) - sum_compressed(results@)
            } else {
                0
            },
            r.success_count == count_success(results@),
            r.failed_count == count_failed(results@),
            r.skipped_count == count_skipped(results@),
    {
        let n = results.len();
        let mut total_original: u128 = 0;
        let mut total_compressed: u128 = 0;
        let mut success_count: usize = 0;
        let mut failed_count: usize = 0;
        let mut skipped_count: usize = 0;
        let mut i: usize = 0;
        while i < n
            invariant
                i <= n,
                n == results@.len(),
                total_original == sum_original(results@.subrange(0, i as int)),
                total_compressed == sum_compressed(results@.subrange(0, i as int)),
                success_count == count_success(results@.subrange(0, i as int)),
                failed_count == count_failed(results@.subrange(0, i as int)),
                skipped_count == count_skipped(results@.subrange(0, i as int)),
                total_original <= i as int * 0xffff_ffff_ffff_ffff,
                total_compressed <= i as int * 0xffff_ffff_ffff_ffff,
                success_count <= i,
                failed_count <= i,
                skipped_count <= i,
            decreases n - i,
        {
            let ghost prefix = results@.subrange(0, i as int);
            let r = &results[i];
            proof {
                assert(results@.subrange(0, i + 1).drop_last() =~= prefix);
                assert(results@.subrange(0, i + 1).last() == results@[i as int]);
            }
            total_original = total_original + (r.original_size as u128);
            total_compressed = total_compressed + (r.compressed_size as u128);
            match &r.status {
                CompressionStatus::Success => {
                    success_count = success_count + 1;
                },
                CompressionStatus::Failed(_) => {
                    failed_count = failed_count + 1;
                },
                CompressionStatus::Skipped(_) => {
                    skipped_count = skipped_count + 1;
                },
            }
            i = i + 1;
        }
        proof {
            assert(results@.subrange(0, n as int) =~= results@);
        }
        let total_saved: u128 = if total_original > total_compressed {
            total_original - total_compressed
        } else {
            0
        };
        BatchSummary {
            file_count: n,
            total_original,
            total_compressed,
            total_saved,
            success_count,
            failed_count,
            skipped_count,
        }
    }
}

} // verus!
