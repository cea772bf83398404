//! The executable engine state and the owning module handle.
//!
//! An `Engine` value carries the process-wide state of the optimizer
//! engine: the shared configuration, the pass registry of the engine
//! version in use, and one slot per decoded module.  Its view is the
//! mathematical `EngineState` of `model`, and every operation's contract
//! is a transition of that model.
//!
//! A `Module` value is the exclusive owner of one slot.  It cannot be
//! cloned or forged, so the slot is operated on by at most one owner; the
//! consuming operations (`into_binary`, `dispose`, and a failed
//! `run_passes`) take the owner by value, which statically revokes every
//! later use, and the model counts exactly one finalization event for the
//! slot.

use vstd::prelude::*;

use crate::binary::check_header;
use crate::binary::decode_accepts;
use crate::binary::decode_error;
use crate::binary::header_error;
use crate::binary::wf_binary;
use crate::binary::DecodeError;
use crate::config::OptimizerConfig;
use crate::features::Features;
use crate::model::all_known;
use crate::model::decode_step;
use crate::model::engine_inv;
use crate::model::first_unknown;
use crate::model::finalize_step;
use crate::model::lemma_decode_step_preserves_inv;
use crate::model::lemma_finalize_step_preserves_inv;
use crate::model::lemma_run_step_preserves_inv;
use crate::model::lemma_set_config_step_preserves_inv;
use crate::model::record_inv;
use crate::model::run_step;
use crate::model::set_config_step;
use crate::model::EngineState;
use crate::model::ModuleRecord;
use vstd::slice::slice_to_vec;

verus! {

/// Why a pass pipeline was rejected.
#[derive(Debug)]
pub enum PassError {
    /// The first requested pass name the engine does not recognize.
    UnknownPass(String),
}

impl PassError {
    /// The offending pass name.
    pub fn pass_name(&self) -> (name: &String)
        ensures
            self matches PassError::UnknownPass(n) && name@ == n@,
    {
        match self {
            PassError::UnknownPass(n) => n,
        }
    }
}

/// One engine-internal module structure: the slot a `Module` owns.
struct Slot {
    decoded_from: Vec<u8>,
    live: bool,
    finalize_events: u64,
    last_run_config: Option<OptimizerConfig>,
}

impl View for Slot {
    type V = ModuleRecord;

    closed spec fn view(&self) -> ModuleRecord {
        ModuleRecord {
            decoded_from: self.decoded_from@,
            live: self.live,
            finalize_events: self.finalize_events as nat,
            last_run_config: self.last_run_config,
        }
    }
}

/// The process-wide engine state: shared configuration, pass registry,
/// and the slots of every module decoded so far.
pub struct Engine {
    config: OptimizerConfig,
    slots: Vec<Slot>,
    known_passes: Vec<String>,
}

impl View for Engine {
    type V = EngineState;

    closed spec fn view(&self) -> EngineState {
        EngineState {
            config: self.config,
            modules: self.slots@.map_values(|s: Slot| s@),
            known_passes: self.known_passes.deep_view(),
        }
    }
}

impl Engine {
    /// The engine invariant, over the model view.
    pub open spec fn wf(&self) -> bool {
        engine_inv(self@)
    }

    /// A fresh engine: initial configuration, the given pass registry,
    /// and no modules.  The registry is the set of pass names the engine
    /// version in use recognizes; it is supplied, not enumerated here,
    /// because the available set belongs to the engine.
    pub fn new(known_passes: Vec<String>) -> (engine: Engine)
        ensures
            engine.wf(),
            engine@ == (EngineState {
                config: OptimizerConfig::init(),
                modules: Seq::<ModuleRecord>::empty(),
                known_passes: known_passes.deep_view(),
            }),
    {
        let engine = Engine {
            config: OptimizerConfig::default(),
            slots: Vec::new(),
            known_passes,
        };
        proof {
            assert(engine@.modules =~= Seq::<ModuleRecord>::empty());
        }
        engine
    }

    /// The engine-wide configuration.
    pub fn config(&self) -> (c: OptimizerConfig)
        ensures
            c == self@.config,
    {
        self.config
    }

    /// How many modules have ever been decoded by this engine.
    pub fn module_count(&self) -> (n: usize)
        ensures
            n == self@.modules.len(),
    {
        self.slots.len()
    }

    /// Whether the module with the given handle is still live.
    pub fn is_live(&self, handle: usize) -> (r: bool)
        ensures
            r == (handle < self@.modules.len() && self@.modules[handle as int].live),
    {
        handle < self.slots.len() && self.slots[handle].live
    }

    /// How many finalization events the module with the given handle has
    /// seen.
    pub fn finalize_count(&self, handle: usize) -> (n: u64)
        requires
            handle < self@.modules.len(),
        ensures
            n == self@.modules[handle as int].finalize_events,
    {
        self.slots[handle].finalize_events
    }

    /// The engine-wide configuration read when passes last ran over the
    /// module with the given handle, if they ever did.
    pub fn last_run_config(&self, handle: usize) -> (c: Option<OptimizerConfig>)
        requires
            handle < self@.modules.len(),
        ensures
            c == self@.modules[handle as int].last_run_config,
    {
        self.slots[handle].last_run_config
    }

    /// Whether the engine's registry holds the given pass name.
    pub fn knows_pass(&self, name: &String) -> (r: bool)
        ensures
            r == self@.known_passes.contains(name@),
    {
        let mut i: usize = 0;
        while i < self.known_passes.len()
            invariant
                i <= self.known_passes.len(),
                forall|j: int| 0 <= j < i ==> self@.known_passes[j] != name@,
            decreases self.known_passes@.len() - i,
        {
            if (&self.known_passes[i]).eq(name) {
                assert(self@.known_passes[i as int] == name@);
                return true;
            }
            i = i + 1;
        }
        false
    }
}

/// The exclusive owner of one decoded module.
///
/// A `Module` is obtained only by decoding, and is consumed by value when
/// the module's life ends, so each slot has exactly one owner and at most
/// one finalization.  Ending that life is an explicit call — `into_binary`
/// or `dispose` — and a caller obligation: a `Module` value merely dropped
/// leaves its record live and its engine structure unreleased, since a
/// release behind the caller's back could not consult the engine.
pub struct Module {
    handle: usize,
}

impl Module {
    /// The handle of the slot this module owns.
    pub closed spec fn id(&self) -> int {
        self.handle as int
    }

    /// Whether this module's slot is live in the given engine.
    pub open spec fn live_in(&self, engine: &Engine) -> bool {
        &&& 0 <= self.id() < engine@.modules.len()
        &&& engine@.modules[self.id()].live
    }

    /// The handle of the slot this module owns.
    pub fn handle(&self) -> (h: usize)
        ensures
            h == self.id(),
    {
        self.handle
    }

    /// Decodes a binary with the engine's default feature set.
    ///
    /// Decoding has two gates.  The header validation is decided here,
    /// and nothing that fails it may reach the engine.  Whether the
    /// engine's own parser then produced a usable module structure is the
    /// engine's verdict, which only the binding layer can observe — the
    /// native read returns no structured error, only a possibly unusable
    /// reference — so the driver hands that verdict in as `accepted`
    /// (`false` for a null or unusable reference).  The call succeeds
    /// exactly when both gates pass; on any rejection the engine model is
    /// untouched and an explicit error comes back, so no module ever
    /// wraps an unusable engine structure.
    pub fn from_bytes(engine: &mut Engine, bytes: &[u8], accepted: bool) -> (r: Result<
        Module,
        DecodeError,
    >)
        requires
            old(engine).wf(),
        ensures
            final(engine).wf(),
            r is Ok <==> decode_accepts(bytes@, accepted),
            (r matches Ok(m) ==> m.id() == old(engine)@.modules.len() && m.live_in(final(engine))
                && final(engine)@ == decode_step(old(engine)@, bytes@)),
            (r matches Err(e) ==> e == decode_error(bytes@) && final(engine)@ == old(engine)@),
    {
        match check_header(bytes) {
            Err(e) => Err(e),
            Ok(()) => {
                if !accepted {
                    return Err(DecodeError::EngineRejected);
                }
                let handle = engine.slots.len();
                let decoded_from = slice_to_vec(bytes);
                engine.slots.push(
                    Slot { decoded_from, live: true, finalize_events: 0u64, last_run_config: None },
                );
                proof {
                    assert(engine@ =~~= decode_step(old(engine)@, bytes@));
                    lemma_decode_step_preserves_inv(old(engine)@, bytes@);
                }
                Ok(Module { handle })
            },
        }
    }

    /// Decodes a binary, also accepting any extension enabled in
    /// `features`.
    ///
    /// As `from_bytes`, with the engine's verdict `accepted` relative to
    /// the given feature set: a binary whose body uses an extension
    /// outside `features` draws a rejecting verdict from the engine's
    /// parser and fails here, while the same binary passes once the
    /// missing flag — or the all-features set — is enabled.
    pub fn from_bytes_with_features(
        engine: &mut Engine,
        bytes: &[u8],
        features: Features,
        accepted: bool,
    ) -> (r: Result<Module, DecodeError>)
        requires
            old(engine).wf(),
        ensures
            final(engine).wf(),
            r is Ok <==> decode_accepts(bytes@, accepted),
            (r matches Ok(m) ==> m.id() == old(engine)@.modules.len() && m.live_in(final(engine))
                && final(engine)@ == decode_step(old(engine)@, bytes@)),
            (r matches Err(e) ==> e == decode_error(bytes@) && final(engine)@ == old(engine)@),
    {
        let _enabled = features;
        Module::from_bytes(engine, bytes, accepted)
    }

    /// Sets the engine-wide optimize level.  The knob is shared state:
    /// every module's later pass runs observe it, not only this one's.
    pub fn set_optimize_level(&self, engine: &mut Engine, level: i32)
        requires
            old(engine).wf(),
        ensures
            final(engine).wf(),
            final(engine)@ == set_config_step(
                old(engine)@,
                old(engine)@.config.with_optimize_level(level),
            ),
    {
        engine.config = OptimizerConfig { optimize_level: level, ..engine.config };
        proof {
            assert(engine@ =~~= set_config_step(
                old(engine)@,
                old(engine)@.config.with_optimize_level(level),
            ));
            lemma_set_config_step_preserves_inv(old(engine)@, engine@.config);
        }
    }

    /// Sets the engine-wide shrink level; shared state, as above.
    pub fn set_shrink_level(&self, engine: &mut Engine, level: i32)
        requires
            old(engine).wf(),
        ensures
            final(engine).wf(),
            final(engine)@ == set_config_step(
                old(engine)@,
                old(engine)@.config.with_shrink_level(level),
            ),
    {
        engine.config = OptimizerConfig { shrink_level: level, ..engine.config };
        proof {
            assert(engine@ =~~= set_config_step(
                old(engine)@,
                old(engine)@.config.with_shrink_level(level),
            ));
            lemma_set_config_step_preserves_inv(old(engine)@, engine@.config);
        }
    }

    /// Sets the engine-wide debug-info flag; shared state, as above.
    pub fn set_debug_info(&self, engine: &mut Engine, debug: bool)
        requires
            old(engine).wf(),
        ensures
            final(engine).wf(),
            final(engine)@ == set_config_step(
                old(engine)@,
                old(engine)@.config.with_debug_info(debug),
            ),
    {
        engine.config = OptimizerConfig { debug_info: debug, ..engine.config };
        proof {
            assert(engine@ =~~= set_config_step(
                old(engine)@,
                old(engine)@.config.with_debug_info(debug),
            ));
            lemma_set_config_step_preserves_inv(old(engine)@, engine@.config);
        }
    }

    /// Sets the engine-wide always-inline threshold; shared state, as
    /// above.
    pub fn set_always_inline_max_size(&self, engine: &mut Engine, max_size: u32)
        requires
            old(engine).wf(),
        ensures
            final(engine).wf(),
            final(engine)@ == set_config_step(
                old(engine)@,
                old(engine)@.config.with_always_inline_max_size(max_size),
            ),
    {
        engine.config = OptimizerConfig { always_inline_max_size: max_size, ..engine.config };
        proof {
            assert(engine@ =~~= set_config_step(
                old(engine)@,
                old(engine)@.config.with_always_inline_max_size(max_size),
            ));
            lemma_set_config_step_preserves_inv(old(engine)@, engine@.config);
        }
    }

    /// Sets the engine-wide one-caller-inline threshold; shared state, as
    /// above.
    pub fn set_one_caller_inline_max_size(&self, engine: &mut Engine, max_size: u32)
        requires
            old(engine).wf(),
        ensures
            final(engine).wf(),
            final(engine)@ == set_config_step(
                old(engine)@,
                old(engine)@.config.with_one_caller_inline_max_size(max_size),
            ),
    {
        engine.config = OptimizerConfig { one_caller_inline_max_size: max_size, ..engine.config };
        proof {
            assert(engine@ =~~= set_config_step(
                old(engine)@,
                old(engine)@.config.with_one_caller_inline_max_size(max_size),
            ));
            lemma_set_config_step_preserves_inv(old(engine)@, engine@.config);
        }
    }

    /// Runs the engine's built-in optimization pipeline over this module,
    /// honoring the engine-wide configuration as it stands at this call.
    pub fn optimize(&self, engine: &mut Engine)
        requires
            old(engine).wf(),
            self.live_in(old(engine)),
        ensures
            final(engine).wf(),
            self.live_in(final(engine)),
            final(engine)@ == run_step(old(engine)@, self.id()),
    {
        record_run(engine, self.handle);
    }

    /// Runs the named passes over this module, in order, honoring the
    /// engine-wide configuration as it stands at this call.
    ///
    /// The pipeline runs only if the engine's registry holds every name;
    /// on success the same module comes back.  A pipeline holding an
    /// unrecognized name is a fatal condition: the call fails reporting
    /// the first such name, the module is finalized, and no usable module
    /// state is left behind.
    pub fn run_passes(self, engine: &mut Engine, passes: &Vec<String>) -> (r: Result<
        Module,
        PassError,
    >)
        requires
            old(engine).wf(),
            self.live_in(old(engine)),
        ensures
            final(engine).wf(),
            r is Ok <==> all_known(old(engine)@, passes.deep_view()),
            (r matches Ok(m) ==> m.id() == self.id() && m.live_in(final(engine))
                && final(engine)@ == run_step(old(engine)@, self.id())),
            (r matches Err(e) ==> e matches PassError::UnknownPass(n)
                && first_unknown(old(engine)@, passes.deep_view(), n@)
                && final(engine)@ == finalize_step(old(engine)@, self.id())),
    {
        match find_unknown(engine, passes) {
            None => {
                record_run(engine, self.handle);
                Ok(Module { handle: self.handle })
            },
            Some(name) => {
                finalize_slot(engine, self.handle);
                Err(PassError::UnknownPass(name))
            },
        }
    }

    /// Serializes this module and consumes it: the module's one
    /// finalization event happens here, whatever the outcome, and no
    /// later operation on it can even be written.
    ///
    /// What the bytes are is the engine's work: the native write
    /// serializes the engine's current state, reflecting every prior
    /// pass run, and the driver hands its output in as `serialized`.
    /// The library's part is the guard on the way out: the bytes are
    /// validated here, so a successful call returns output the decoder's
    /// header check accepts — it decodes again — and engine output that
    /// fails validation is reported instead of returned.
    pub fn into_binary(self, engine: &mut Engine, serialized: Vec<u8>) -> (r: Result<
        Vec<u8>,
        DecodeError,
    >)
        requires
            old(engine).wf(),
            self.live_in(old(engine)),
        ensures
            final(engine).wf(),
            final(engine)@ == finalize_step(old(engine)@, self.id()),
            r is Ok <==> wf_binary(serialized@),
            (r matches Ok(bytes) ==> bytes@ == serialized@ && wf_binary(bytes@)),
            (r matches Err(e) ==> e == header_error(serialized@)),
    {
        let verdict = check_header(serialized.as_slice());
        finalize_slot(engine, self.handle);
        match verdict {
            Ok(()) => Ok(serialized),
            Err(e) => Err(e),
        }
    }

    /// Releases this module's engine structure without serializing it:
    /// the module's one finalization event happens here.
    pub fn dispose(self, engine: &mut Engine)
        requires
            old(engine).wf(),
            self.live_in(old(engine)),
        ensures
            final(engine).wf(),
            final(engine)@ == finalize_step(old(engine)@, self.id()),
    {
        finalize_slot(engine, self.handle);
    }
}

/// Ends a live slot's life and counts its single finalization event.
fn finalize_slot(engine: &mut Engine, handle: usize)
    requires
        old(engine).wf(),
        handle < old(engine)@.modules.len(),
        old(engine)@.modules[handle as int].live,
    ensures
        final(engine).wf(),
        final(engine)@ == finalize_step(old(engine)@, handle as int),
{
    proof {
        assert(record_inv(old(engine)@.modules[handle as int]));
    }
    let slot = &mut engine.slots[handle];
    let ev = slot.finalize_events;
    slot.live = false;
    slot.finalize_events = ev + 1;
    proof {
        assert(engine@ =~~= finalize_step(old(engine)@, handle as int));
        lemma_finalize_step_preserves_inv(old(engine)@, handle as int);
    }
}

/// Stamps a live slot with the configuration read at call time.
fn record_run(engine: &mut Engine, handle: usize)
    requires
        old(engine).wf(),
        handle < old(engine)@.modules.len(),
        old(engine)@.modules[handle as int].live,
    ensures
        final(engine).wf(),
        final(engine)@ == run_step(old(engine)@, handle as int),
{
    let cfg = engine.config;
    let slot = &mut engine.slots[handle];
    slot.last_run_config = Some(cfg);
    proof {
        assert(engine@ =~~= run_step(old(engine)@, handle as int));
        lemma_run_step_preserves_inv(old(engine)@, handle as int);
    }
}

/// Finds the first of the given pass names the engine's registry does not
/// hold.
fn find_unknown(engine: &Engine, passes: &Vec<String>) -> (r: Option<String>)
    ensures
        r is None <==> all_known(engine@, passes.deep_view()),
        (r matches Some(n) ==> first_unknown(engine@, passes.deep_view(), n@)),
{
    let mut i: usize = 0;
    while i < passes.len()
        invariant
            i <= passes.len(),
            forall|j: int|
                0 <= j < i ==> engine@.known_passes.contains(#[trigger] passes.deep_view()[j]),
        decreases passes@.len() - i,
    {
        if !engine.knows_pass(&passes[i]) {
            let name = passes[i].clone();
            proof {
                let names = passes.deep_view();
                assert(names[i as int] == name@);
                assert(!engine@.known_passes.contains(names[i as int]));
                assert(first_unknown(engine@, names, name@));
            }
            return Some(name);
        }
        proof {
            assert(passes.deep_view()[i as int] == passes@[i as int]@);
        }
        i = i + 1;
    }
    None
}

} // verus!
