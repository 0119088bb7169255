//! The batch engine. It owns every decision of a run — which file is next,
//! what the codec must do, what gets recorded, which progress events flow —
//! while the host performs the disk and codec work between steps and hands
//! each file's outcome back. One `Processing` event precedes each file's
//! work, one `Progress` event follows it, and exactly one terminal event
//! closes the stream: `Complete` normally, `Error` when the output directory
//! could not be created, in which case no file is attempted.

use vstd::prelude::*;

use super::paths::generate_output_path;
use super::paths::generate_temp_path;
use super::paths::output_path_of;
use super::paths::temp_path_of;
use super::result::CompressionResult;
use super::result::CompressionStatus;
use super::settings::CompressionSettings;
use super::settings::OutputFormat;
use crate::file::ImageFile;

verus! {

/// One message of the ordered event stream an observer receives during a
/// run. `Progress` reports the fraction of the batch finished so far as the
/// exact pair `current / total`.
#[derive(Clone, Debug)]
pub enum CompressionProgress {
    Processing { current: usize, total: usize, filename: String },
    Progress { current: usize, total: usize },
    Complete,
    Error(String),
}

/// The knobs the selected codec path reads; every other knob of the settings
/// is inert for the run.
#[derive(Clone, Debug)]
pub enum CodecParams {
    /// Lossless re-encode, then an optimization pass over the PNG bytes. The
    /// intermediate lives at `temp_path` and must be gone when the file is
    /// done, whether optimization succeeded or failed.
    Png { strip_metadata: bool, temp_path: String },
    /// Lossy encode of a 4-channel pixel buffer; `quality_tenths` is the
    /// 0.0 to 100.0 scale times ten.
    WebP { quality_tenths: i32 },
    /// Encode of a 3-channel pixel buffer; alpha is dropped.
    Jpeg { quality: u8 },
}

/// Everything the codec boundary needs for one file: where to read, where to
/// write, and the format-specific parameters.
#[derive(Clone, Debug)]
pub struct CodecJob {
    pub input_path: String,
    pub output_path: String,
    pub params: CodecParams,
}

/// What came back over the codec boundary for one file: the byte count on
/// disk, or the reason it failed, plus the wall-clock time the work took.
#[derive(Debug)]
pub struct CodecOutcome {
    pub encoded: Result<u64, String>,
    pub elapsed_ms: u64,
}

/// Where a run stands.
#[derive(Clone, Copy, Debug, PartialEq, Eq, Structural)]
pub enum EnginePhase {
    /// Created; the output directory has not been ensured yet.
    Pending,
    /// The file at index `results.len()` is being worked on.
    Running,
    /// Every file has a result and the terminal event went out.
    Finished,
    /// The output directory could not be created; the batch never started.
    Aborted,
}

/// The job handed to the codec boundary is the one the settings select:
/// paths derived from the input path and the output directory, and exactly
/// the quality knob of the chosen format.
pub open spec fn job_matches(job: CodecJob, file: ImageFile, settings: CompressionSettings) -> bool {
    &&& job.input_path@ == file.path@
    &&& job.output_path@ == output_path_of(
        file.path@,
        settings.output_directory@,
        settings.output_format,
    )
    &&& match settings.output_format {
        OutputFormat::Png => (job.params matches CodecParams::Png { strip_metadata, temp_path }
            && strip_metadata == !settings.preserve_metadata && temp_path@ == temp_path_of(
            file.path@,
            settings.output_directory@,
        )),
        OutputFormat::WebP => (job.params matches CodecParams::WebP { quality_tenths }
            && quality_tenths == settings.webp_quality_tenths),
        OutputFormat::Jpeg => (job.params matches CodecParams::Jpeg { quality } && quality
            == settings.jpeg_quality),
    }
}

/// What the record of one file must say, given what the codec boundary
/// reported: a success carries the derived output path, the input's size,
/// the written byte count and the elapsed time; a failure carries the reason
/// and the empty shape.
pub open spec fn result_for_outcome(
    r: CompressionResult,
    file: ImageFile,
    settings: CompressionSettings,
    encoded: Result<u64, String>,
    elapsed_ms: u64,
) -> bool {
    match encoded {
        Ok(size) => {
            &&& r.input_path@ == file.path@
            &&& r.output_path@ == output_path_of(
                file.path@,
                settings.output_directory@,
                settings.output_format,
            )
            &&& r.original_size == file.size
            &&& r.compressed_size == size
            &&& r.status is Success
            &&& r.processing_time_ms == elapsed_ms
        },
        Err(m) => {
            &&& r.input_path@ == file.path@
            &&& (r.status matches CompressionStatus::Failed(e) && e@ == m@)
            &&& r.failed_shape()
        },
    }
}

/// The part of `result_for_outcome` that the engine maintains statefully for
/// every recorded result, whatever the outcome was.
pub open spec fn result_shape_ok(
    r: CompressionResult,
    file: ImageFile,
    settings: CompressionSettings,
) -> bool {
    &&& r.input_path@ == file.path@
    &&& !(r.status is Skipped)
    &&& (r.status is Success ==> r.output_path@ == output_path_of(
        file.path@,
        settings.output_directory@,
        settings.output_format,
    ) && r.original_size == file.size)
    &&& (r.status is Failed ==> r.failed_shape())
}

/// Whatever outcome produced it, a failed record points at its input and
/// otherwise carries the empty shape: no output path, both sizes zero, no
/// elapsed time.
pub proof fn lemma_failed_result_shape(
    r: CompressionResult,
    file: ImageFile,
    settings: CompressionSettings,
    encoded: Result<u64, String>,
    elapsed_ms: u64,
)
    requires
        result_for_outcome(r, file, settings, encoded, elapsed_ms),
        r.status is Failed,
    ensures
        r.failed_shape(),
        r.input_path@ == file.path@,
{
}

/// The two events that close file `k` of the batch: its `Progress` report,
/// then either the `Processing` announcement of file `k + 1` or the terminal
/// `Complete`.
pub open spec fn step_events(files: Seq<ImageFile>, k: int) -> Seq<CompressionProgress> {
    seq![
        CompressionProgress::Progress { current: (k + 1) as usize, total: files.len() as usize },
    ] + if k + 1 < files.len() {
        seq![
            CompressionProgress::Processing {
                current: (k + 2) as usize,
                total: files.len() as usize,
                filename: files[k + 1].name,
            },
        ]
    } else {
        seq![CompressionProgress::Complete]
    }
}

/// The whole event stream of a non-empty batch after `k` files are done:
/// the `Processing` announcement of the first file, then the closing pair of
/// each finished file.
pub open spec fn run_events(files: Seq<ImageFile>, k: int) -> Seq<CompressionProgress>
    decreases k,
{
    if k <= 0 {
        seq![
            CompressionProgress::Processing {
                current: 1usize,
                total: files.len() as usize,
                filename: files[0].name,
            },
        ]
    } else {
        run_events(files, k - 1) + step_events(files, k - 1)
    }
}

/// The batch orchestrator. The host drives it step by step: `begin` with the
/// outcome of ensuring the output directory, then for each file `current_job`
/// and `record_outcome`, performing the codec work in between.
pub struct CompressionEngine {
    pub files: Vec<ImageFile>,
    pub settings: CompressionSettings,
    pub results: Vec<CompressionResult>,
    pub phase: EnginePhase,
}

impl CompressionEngine {
    /// Every recorded result belongs to the file at its index and has a
    /// sound shape, and the phase agrees with how many results exist.
    pub open spec fn wf(self) -> bool {
        &&& self.settings.is_valid()
        &&& self.results@.len() <= self.files@.len()
        &&& (self.phase is Pending ==> self.results@.len() == 0)
        &&& (self.phase is Running ==> self.results@.len() < self.files@.len())
        &&& (self.phase is Finished ==> self.results@.len() == self.files@.len())
        &&& (self.phase is Aborted ==> self.results@.len() == 0)
        &&& forall|i: int|
            0 <= i < self.results@.len() ==> result_shape_ok(
                #[trigger] self.results@[i],
                self.files@[i],
                self.settings,
            )
    }

    /// A fresh run over `files` with already-validated settings; the engine
    /// does not re-validate.
    pub fn new(files: Vec<ImageFile>, settings: CompressionSettings) -> (r: Self)
        requires
            settings.is_valid(),
        ensures
            r.wf(),
            r.phase is Pending,
            r.files == files,
            r.settings == settings,
            r.results@.len() == 0,
    {
        CompressionEngine { files, settings, results: Vec::new(), phase: EnginePhase::Pending }
    }

    /// Starts the run once the host has tried to create the output
    /// directory. On failure the batch aborts before any file: one `Error`
    /// event carrying the host's message, and the result list stays empty.
    /// On success the stream opens with either the first `Processing`
    /// announcement or, for an empty batch, the terminal `Complete`.
    pub fn begin(&mut self, dir_ok: bool, dir_error: String) -> (events: Vec<CompressionProgress>)
        requires
            old(self).wf(),
            old(self).phase is Pending,
        ensures
            final(self).wf(),
            final(self).files == old(self).files,
            final(self).settings == old(self).settings,
            final(self).results@.len() == 0,
            !dir_ok ==> final(self).phase is Aborted && events@ =~= seq![
                CompressionProgress::Error(dir_error),
            ],
            dir_ok && old(self).files@.len() == 0 ==> final(self).phase is Finished && events@
                =~= seq![CompressionProgress::Complete],
            dir_ok && old(self).files@.len() > 0 ==> final(self).phase is Running && events@
                =~= run_events(old(self).files@, 0),
    {
        let n = self.files.len();
        let mut events: Vec<CompressionProgress> = Vec::new();
        if !dir_ok {
            self.phase = EnginePhase::Aborted;
            events.push(CompressionProgress::Error(dir_error));
        } else if n == 0 {
            self.phase = EnginePhase::Finished;
            events.push(CompressionProgress::Complete);
        } else {
            self.phase = EnginePhase::Running;
            let filename = self.files[0].name.clone();
            events.push(CompressionProgress::Processing { current: 1, total: n, filename });
            proof {
                assert(events@ =~= run_events(self.files@, 0));
            }
        }
        events
    }

    /// The codec work the host must perform next: the job for the file at
    /// index `results.len()`, present exactly while the run is underway.
    pub fn current_job(&self) -> (r: Option<CodecJob>)
        requires
            self.wf(),
        ensures
            (r is Some <==> self.phase is Running),
            (r matches Some(job) ==> job_matches(
                job,
                self.files@[self.results@.len() as int],
                self.settings,
            )),
    {
        match self.phase {
            EnginePhase::Running => {
                let idx = self.results.len();
                let file = &self.files[idx];
                Some(plan_job(file, &self.settings))
            },
            _ => None,
        }
    }

    /// Records what the codec boundary reported for the current file — a
    /// failure of one file never aborts the batch — and emits the events
    /// that close it: its `Progress` report, then the next `Processing`
    /// announcement or the terminal `Complete`.
    pub fn record_outcome(&mut self, encoded: Result<u64, String>, elapsed_ms: u64) -> (events: Vec<
        CompressionProgress,
    >)
        requires
            old(self).wf(),
            old(self).phase is Running,
        ensures
            final(self).wf(),
            final(self).files == old(self).files,
            final(self).settings == old(self).settings,
            final(self).results@.len() == old(self).results@.len() + 1,
            final(self).results@.subrange(0, old(self).results@.len() as int) =~= old(self).results@,
            result_for_outcome(
                final(self).results@.last(),
                old(self).files@[old(self).results@.len() as int],
                old(self).settings,
                encoded,
                elapsed_ms,
            ),
            events@ =~= step_events(old(self).files@, old(self).results@.len() as int),
            old(self).results@.len() + 1 < old(self).files@.len() ==> final(self).phase is Running,
            old(self).results@.len() + 1 == old(self).files@.len() ==> final(self).phase is Finished,
    {
        let idx = self.results.len();
        let n = self.files.len();
        let result = match encoded {
            Ok(size) => {
                let file = &self.files[idx];
                let output_path = generate_output_path(
                    file.path.as_str(),
                    self.settings.output_directory.as_str(),
                    self.settings.output_format,
                );
                CompressionResult::new(file.path.clone(), output_path, file.size, size, elapsed_ms)
            },
            Err(msg) => {
                let file = &self.files[idx];
                CompressionResult::failed(file.path.clone(), msg)
            },
        };
        let ghost prev = self.results@;
        self.results.push(result);
        proof {
            assert forall|i: int| 0 <= i < self.results@.len() implies result_shape_ok(
                #[trigger] self.results@[i],
                self.files@[i],
                self.settings,
            ) by {
                if i < prev.len() {
                    assert(self.results@[i] == prev[i]);
                    assert(result_shape_ok(prev[i], self.files@[i], self.settings));
                }
            }
        }
        let mut events: Vec<CompressionProgress> = Vec::new();
        events.push(CompressionProgress::Progress { current: idx + 1, total: n });
        if idx + 1 < n {
            let filename = self.files[idx + 1].name.clone();
            events.push(
                CompressionProgress::Processing { current: idx + 2, total: n, filename },
            );
        } else {
            self.phase = EnginePhase::Finished;
            events.push(CompressionProgress::Complete);
        }
        proof {
            assert(events@ =~= step_events(self.files@, idx as int));
        }
        events
    }

    /// Hands the accumulated result list to the caller once the run is over.
    /// The return value is the single source of truth of a batch; the event
    /// stream is advisory.
    pub fn into_results(self) -> (r: Vec<CompressionResult>)
        requires
            self.phase is Finished || self.phase is Aborted,
        ensures
            r == self.results,
    {
        self.results
    }

    /// Runs a whole batch against outcomes the codec boundary already
    /// produced, one per file: results come back in input order, one per
    /// input including failures, and the event stream has exactly the
    /// documented shape. `compress_files` is also what a host without any
    /// need for streaming calls.
    pub fn compress_files(
        files: Vec<ImageFile>,
        settings: CompressionSettings,
        dir_ok: bool,
        dir_error: String,
        outcomes: Vec<CodecOutcome>,
    ) -> (r: (Vec<CompressionResult>, Vec<CompressionProgress>))
        requires
            settings.is_valid(),
            outcomes@.len() == files@.len(),
        ensures
            !dir_ok ==> r.0@.len() == 0 && r.1@ =~= seq![CompressionProgress::Error(dir_error)],
            dir_ok ==> r.0@.len() == files@.len() && forall|i: int|
                0 <= i < files@.len() ==> result_for_outcome(
                    #[trigger] r.0@[i],
                    files@[i],
                    settings,
                    outcomes@[i].encoded,
                    outcomes@[i].elapsed_ms,
                ),
            dir_ok ==> forall|i: int|
                0 <= i < files@.len() ==> (#[trigger] r.0@[i]).input_path@ == files@[i].path@,
            dir_ok && files@.len() == 0 ==> r.1@ =~= seq![CompressionProgress::Complete],
            dir_ok && files@.len() > 0 ==> r.1@ =~= run_events(files@, files@.len() as int),
    {
        let ghost files0 = files@;
        let ghost outcomes0 = outcomes@;
        let n = files.len();
        let mut engine = CompressionEngine::new(files, settings);
        let mut events = engine.begin(dir_ok, dir_error);
        if !dir_ok {
            return (engine.into_results(), events);
        }
        let mut outcomes = outcomes;
        let mut i: usize = 0;
        while i < n
            invariant
                i <= n,
                n == files0.len(),
                n == outcomes0.len(),
                outcomes@ =~= outcomes0.subrange(i as int, n as int),
                engine.wf(),
                engine.files@ == files0,
                engine.settings == settings,
                engine.results@.len() == i,
                i < n ==> engine.phase is Running,
                i == n ==> engine.phase is Finished,
                forall|j: int|
                    0 <= j < i ==> result_for_outcome(
                        #[trigger] engine.results@[j],
                        files0[j],
                        settings,
                        outcomes0[j].encoded,
                        outcomes0[j].elapsed_ms,
                    ),
                n > 0 ==> events@ =~= run_events(files0, i as int),
                n == 0 ==> events@ =~= seq![CompressionProgress::Complete],
            decreases n - i,
        {
            let outcome = outcomes.remove(0);
            proof {
                assert(outcomes0.subrange(i as int, n as int)[0] == outcomes0[i as int]);
                assert(outcome == outcomes0[i as int]);
                assert(outcomes@ =~= outcomes0.subrange(i + 1, n as int));
            }
            let ghost prev_results = engine.results@;
            let ghost prev_events = events@;
            let mut step = engine.record_outcome(outcome.encoded, outcome.elapsed_ms);
            events.append(&mut step);
            proof {
                assert forall|j: int| 0 <= j < i + 1 implies result_for_outcome(
                    #[trigger] engine.results@[j],
                    files0[j],
                    settings,
                    outcomes0[j].encoded,
                    outcomes0[j].elapsed_ms,
                ) by {
                    if j < i {
                        assert(engine.results@.subrange(0, i as int)[j] == prev_results[j]);
                        assert(engine.results@[j] == prev_results[j]);
                    } else {
                        assert(engine.results@[j] == engine.results@.last());
                    }
                }
                assert(events@ =~= run_events(files0, i + 1));
            }
            i = i + 1;
        }
        proof {
            assert(engine.phase is Finished);
        }
        (engine.into_results(), events)
    }
}

/// The pure dispatch over the output format: derives the output path (and,
/// for PNG, the intermediate path) and copies exactly the quality knob the
/// chosen codec reads.
pub fn plan_job(file: &ImageFile, settings: &CompressionSettings) -> (job: CodecJob)
    ensures
        job_matches(job, *file, *settings),
{
    let output_path = generate_output_path(
        file.path.as_str(),
        settings.output_directory.as_str(),
        settings.output_format,
    );
    let params = match settings.output_format {
        OutputFormat::Png => CodecParams::Png {
            strip_metadata: !settings.preserve_metadata,
            temp_path: generate_temp_path(
                file.path.as_str(),
                settings.output_directory.as_str(),
            ),
        },
        OutputFormat::WebP => CodecParams::WebP { quality_tenths: settings.webp_quality_tenths },
        OutputFormat::Jpeg => CodecParams::Jpeg { quality: settings.jpeg_quality },
    };
    CodecJob { input_path: file.path.clone(), output_path, params }
}

} // verus!
