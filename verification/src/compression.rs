//! The compression pipeline: run configuration, per-file results, output-path
//! derivation, and the batch engine with its progress-event stream.

mod engine;
mod paths;
mod result;
mod settings;

pub use engine::CodecJob;
pub use engine::CodecOutcome;
pub use engine::CodecParams;
pub use engine::CompressionEngine;
pub use engine::CompressionProgress;
pub use engine::EnginePhase;
pub use engine::job_matches;
pub use engine::lemma_failed_result_shape;
pub use engine::plan_job;
pub use engine::result_for_outcome;
pub use engine::result_shape_ok;
pub use engine::run_events;
pub use engine::step_events;
pub use paths::compressed_name;
pub use paths::dir_join;
pub use paths::format_extension;
pub use paths::generate_output_path;
pub use paths::generate_temp_path;
pub use paths::lemma_output_path_deterministic;
pub use paths::output_path_of;
pub use paths::temp_path_of;
pub use result::BatchSummary;
pub use result::CompressionResult;
pub use result::CompressionStatus;
pub use result::count_failed;
pub use result::count_skipped;
pub use result::count_success;
pub use result::lemma_success_ratio_bounds;
pub use result::sum_compressed;
pub use result::sum_original;
pub use settings::CompressionSettings;
pub use settings::OutputFormat;
