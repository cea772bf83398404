//! The library's headline guarantees, stated and proved over the model.
//!
//! Each proof function here is a law about the transitions of `model`, in
//! the terms the operations' own contracts use, so the guarantees below
//! hold of every program built from this library's operations.

use vstd::prelude::*;

use crate::binary::decode_accepts;
use crate::binary::wf_binary;
use crate::config::OptimizerConfig;
use crate::engine::Engine;
use crate::model::decode_step;
use crate::model::engine_inv;
use crate::model::finalize_step;
use crate::model::lemma_decode_step_preserves_inv;
use crate::model::lemma_finalize_step_preserves_inv;
use crate::model::record_inv;
use crate::model::run_step;
use crate::model::set_config_step;
use crate::model::EngineState;

verus! {

/// Ownership linearity, standing: in any reachable engine state, a module
/// record has seen at most one finalization event, and it is live exactly
/// until that event.  No module is serialized or disposed twice, and none
/// is left both live and finalized.
pub proof fn lemma_finalization_at_most_once(engine: &Engine, h: int)
    requires
        engine.wf(),
        0 <= h < engine@.modules.len(),
    ensures
        engine@.modules[h].finalize_events <= 1,
        engine@.modules[h].live <==> engine@.modules[h].finalize_events == 0,
{
    assert(record_inv(engine@.modules[h]));
}

/// Ownership linearity, over a whole lifetime: a freshly decoded module
/// has seen no finalization event, and consuming it — by serialization or
/// by disposal — leaves it with exactly one, no longer live, with the
/// engine invariant intact.
pub proof fn lemma_lifecycle_exactly_one_finalization(s: EngineState, bytes: Seq<u8>)
    requires
        engine_inv(s),
        wf_binary(bytes),
    ensures
        ({
            let h = s.modules.len() as int;
            let s1 = decode_step(s, bytes);
            let s2 = finalize_step(s1, h);
            &&& s1.modules[h].live
            &&& s1.modules[h].finalize_events == 0
            &&& !s2.modules[h].live
            &&& s2.modules[h].finalize_events == 1
            &&& engine_inv(s2)
        }),
{
    let h = s.modules.len() as int;
    let s1 = decode_step(s, bytes);
    lemma_decode_step_preserves_inv(s, bytes);
    lemma_finalize_step_preserves_inv(s1, h);
}

/// Round trip: a successful serialization returns bytes that pass the
/// decoder's own validation — `into_binary` ensures `wf_binary` of its
/// result — and `from_bytes` succeeds on exactly the well-formed
/// binaries the engine accepts.  So serialization output decodes again
/// whenever the engine accepts the binary it itself produced.
pub proof fn lemma_round_trip_redecodes(out: Seq<u8>, accepted: bool)
    requires
        wf_binary(out),
        accepted,
    ensures
        decode_accepts(out, accepted),
{
}

/// No binary that failed validation ever reaches the engine: every
/// module record a well-formed engine holds was decoded from bytes the
/// header check accepted.
pub proof fn lemma_records_hold_validated_binaries(engine: &Engine, h: int)
    requires
        engine.wf(),
        0 <= h < engine@.modules.len(),
    ensures
        wf_binary(engine@.modules[h].decoded_from),
{
    assert(record_inv(engine@.modules[h]));
}

/// Configuration is engine-wide, last write wins: setting a knob twice
/// leaves the later value and no trace of the earlier one.
pub proof fn lemma_config_last_write_wins(c: OptimizerConfig, a: i32, b: i32)
    ensures
        c.with_optimize_level(a).with_optimize_level(b) == c.with_optimize_level(b),
{
}

/// Configuration is read at call time from shared state, not captured per
/// module: decode a module while the optimize level is `a`, set the level
/// to `b`, run passes — the run observes level `b`, whatever held at
/// decode time.
pub proof fn lemma_run_reads_config_at_call_time(s: EngineState, bytes: Seq<u8>, a: i32, b: i32)
    requires
        engine_inv(s),
        wf_binary(bytes),
    ensures
        ({
            let s1 = set_config_step(s, s.config.with_optimize_level(a));
            let s2 = decode_step(s1, bytes);
            let h = s1.modules.len() as int;
            let s3 = set_config_step(s2, s2.config.with_optimize_level(b));
            let s4 = run_step(s3, h);
            &&& s4.modules[h].last_run_config == Some(s3.config)
            &&& s3.config.optimize_level == b
        }),
{
}

/// A rejected pass pipeline is fatal for its module: afterward the module
/// is not live — no partial, corrupted state remains usable — and its
/// finalization count still ends at exactly one, with the engine
/// invariant intact.
pub proof fn lemma_rejected_pipeline_leaves_nothing_usable(s: EngineState, h: int)
    requires
        engine_inv(s),
        0 <= h < s.modules.len(),
        s.modules[h].live,
    ensures
        !finalize_step(s, h).modules[h].live,
        finalize_step(s, h).modules[h].finalize_events == 1,
        engine_inv(finalize_step(s, h)),
{
    assert(record_inv(s.modules[h]));
    lemma_finalize_step_preserves_inv(s, h);
}

/// Transforming or finalizing one module never touches another: each
/// module's lifetime accounting is its own.
pub proof fn lemma_steps_touch_only_their_module(s: EngineState, h: int, j: int)
    requires
        0 <= h < s.modules.len(),
        0 <= j < s.modules.len(),
        j != h,
    ensures
        run_step(s, h).modules[j] == s.modules[j],
        finalize_step(s, h).modules[j] == s.modules[j],
{
}

} // verus!
