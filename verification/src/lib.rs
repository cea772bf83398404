//! A verified model of a WebAssembly module optimization pipeline.
//!
//! The library wraps an external optimizer engine behind an explicit,
//! machine-checked state model.  An `Engine` value models the process-wide
//! engine state: the global optimizer configuration and one record per
//! decoded module.  A `Module` value owns exactly one of those records; it
//! is created by decoding a binary, transformed by passes, and consumed
//! exactly once, either by serialization or by disposal.  The proofs in
//! `laws` establish the headline guarantees: successful serialization
//! output decodes again, optimizer configuration is engine-wide and read at call
//! time, and every module record sees exactly one finalization event over
//! its lifetime.
//!
//! The engine's parsing and transformation work itself is outside the
//! model: an unverified binding layers the real engine calls over the
//! transitions modeled here and hands the engine's outcomes back in as
//! inputs — its verdict on a binary at decode time, the bytes its writer
//! produced at serialization time — so the contracts state what holds of
//! every outcome instead of deciding the engine's part.  The library's
//! own decisions guard both directions: nothing that fails header
//! validation reaches the engine, and nothing the validator would reject
//! is returned.  Because the underlying configuration state is shared by
//! the whole process, concurrent callers must serialize the entire
//! decode/configure/transform/serialize sequence externally.

mod binary;
mod config;
mod engine;
mod features;
mod laws;
mod model;

pub use binary::check_header;
pub use binary::decode_accepts;
pub use binary::decode_error;
pub use binary::header_error;
pub use binary::wf_binary;
pub use binary::DecodeError;
pub use config::OptimizerConfig;
pub use engine::Engine;
pub use engine::Module;
pub use engine::PassError;
pub use features::lemma_all_contains_every_set;
pub use features::Features;
pub use laws::lemma_config_last_write_wins;
pub use laws::lemma_finalization_at_most_once;
pub use laws::lemma_lifecycle_exactly_one_finalization;
pub use laws::lemma_rejected_pipeline_leaves_nothing_usable;
pub use laws::lemma_run_reads_config_at_call_time;
pub use laws::lemma_records_hold_validated_binaries;
pub use laws::lemma_round_trip_redecodes;
pub use laws::lemma_steps_touch_only_their_module;
pub use model::all_known;
pub use model::decode_step;
pub use model::first_unknown;
pub use model::engine_inv;
pub use model::finalize_step;
pub use model::lemma_decode_step_preserves_inv;
pub use model::lemma_finalize_step_preserves_inv;
pub use model::lemma_run_step_preserves_inv;
pub use model::lemma_set_config_step_preserves_inv;
pub use model::record_inv;
pub use model::run_step;
pub use model::set_config_step;
pub use model::EngineState;
pub use model::ModuleRecord;
