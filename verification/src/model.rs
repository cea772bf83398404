//! The mathematical model of the engine state.
//!
//! An `EngineState` is the specification-level picture of the process-wide
//! engine: the shared optimizer configuration, the registry of pass names
//! the engine version knows, and one `ModuleRecord` per module ever
//! decoded.  Each operation of the library is specified as a transition
//! function on this state, and `engine_inv` is the invariant every
//! transition preserves: a record's binary stays well formed, and a record
//! is finalized at most once — it is live exactly until its single
//! finalization event, after which no transition touches it again.

use vstd::prelude::*;

use crate::binary::wf_binary;
use crate::config::OptimizerConfig;

verus! {

/// The model of one decoded module: the binary it came from, whether it
/// is still live, how many finalization events it has seen, and the
/// configuration the engine read when a pass last ran over it.
#[verifier::ext_equal]
pub ghost struct ModuleRecord {
    /// The binary the module was decoded from.  The engine's current
    /// in-memory state is opaque to the model and drifts from these
    /// bytes with every pass run; nothing equates later output to them.
    pub decoded_from: Seq<u8>,
    /// Whether the record may still be operated on.
    pub live: bool,
    /// How many times the record has been finalized (serialized or
    /// disposed).
    pub finalize_events: nat,
    /// The engine-wide configuration at the time passes last ran over
    /// this module, if they ever did.
    pub last_run_config: Option<OptimizerConfig>,
}

/// The model of the process-wide engine state.
#[verifier::ext_equal]
pub ghost struct EngineState {
    /// The engine-wide optimizer configuration, shared by every module.
    pub config: OptimizerConfig,
    /// One record per module ever decoded, in decoding order; a record's
    /// index is the module's handle.
    pub modules: Seq<ModuleRecord>,
    /// The pass names the engine version in use recognizes.
    pub known_passes: Seq<Seq<char>>,
}

/// The per-record invariant: the binary is well formed, and the record is
/// live exactly until its single finalization event.
pub open spec fn record_inv(r: ModuleRecord) -> bool {
    &&& wf_binary(r.decoded_from)
    &&& r.finalize_events <= 1
    &&& (r.live <==> r.finalize_events == 0)
}

/// The engine invariant: every record satisfies `record_inv`.
pub open spec fn engine_inv(s: EngineState) -> bool {
    forall|i: int| 0 <= i < s.modules.len() ==> record_inv(#[trigger] s.modules[i])
}

/// Decoding appends a fresh live record holding the given binary; nothing
/// else changes.
pub open spec fn decode_step(s: EngineState, bytes: Seq<u8>) -> EngineState {
    EngineState {
        modules: s.modules.push(
            ModuleRecord { decoded_from: bytes, live: true, finalize_events: 0, last_run_config: None },
        ),
        ..s
    }
}

/// Setting a knob replaces the engine-wide configuration; every module
/// record is untouched.
pub open spec fn set_config_step(s: EngineState, c: OptimizerConfig) -> EngineState {
    EngineState { config: c, ..s }
}

/// Running passes over a live module records the configuration the engine
/// read at call time.  The transformation of the module body itself is
/// the engine's work, outside the model: after this step the engine's
/// state is no longer described by the bytes the module was decoded from.
pub open spec fn run_step(s: EngineState, h: int) -> EngineState {
    EngineState {
        modules: s.modules.update(
            h,
            ModuleRecord { last_run_config: Some(s.config), ..s.modules[h] },
        ),
        ..s
    }
}

/// Finalizing a module — serializing it or disposing of it — ends its
/// life and counts the one finalization event it ever sees.
pub open spec fn finalize_step(s: EngineState, h: int) -> EngineState {
    EngineState {
        modules: s.modules.update(
            h,
            ModuleRecord {
                live: false,
                finalize_events: s.modules[h].finalize_events + 1,
                ..s.modules[h]
            },
        ),
        ..s
    }
}

/// Whether the engine's registry holds every one of the given pass
/// names: the condition under which a pass pipeline runs at all.
pub open spec fn all_known(s: EngineState, names: Seq<Seq<char>>) -> bool {
    forall|i: int| 0 <= i < names.len() ==> s.known_passes.contains(#[trigger] names[i])
}

/// Whether `n` is the first of the given pass names the engine's registry
/// does not hold: the name a rejected pipeline reports.
pub open spec fn first_unknown(s: EngineState, names: Seq<Seq<char>>, n: Seq<char>) -> bool {
    exists|i: int|
        {
            &&& 0 <= i < names.len()
            &&& #[trigger] names[i] == n
            &&& !s.known_passes.contains(names[i])
            &&& forall|j: int| 0 <= j < i ==> s.known_passes.contains(#[trigger] names[j])
        }
}

/// Decoding a well-formed binary preserves the engine invariant.
pub proof fn lemma_decode_step_preserves_inv(s: EngineState, bytes: Seq<u8>)
    requires
        engine_inv(s),
        wf_binary(bytes),
    ensures
        engine_inv(decode_step(s, bytes)),
{
}

/// Replacing the configuration preserves the engine invariant.
pub proof fn lemma_set_config_step_preserves_inv(s: EngineState, c: OptimizerConfig)
    requires
        engine_inv(s),
    ensures
        engine_inv(set_config_step(s, c)),
{
}

/// Running passes over a record preserves the engine invariant.
pub proof fn lemma_run_step_preserves_inv(s: EngineState, h: int)
    requires
        engine_inv(s),
        0 <= h < s.modules.len(),
    ensures
        engine_inv(run_step(s, h)),
{
}

/// Finalizing a live record preserves the engine invariant.
pub proof fn lemma_finalize_step_preserves_inv(s: EngineState, h: int)
    requires
        engine_inv(s),
        0 <= h < s.modules.len(),
        s.modules[h].live,
    ensures
        engine_inv(finalize_step(s, h)),
{
}

} // verus!
