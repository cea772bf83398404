//! The process-wide optimizer configuration.
//!
//! The engine keeps a single, engine-wide set of tuning knobs; every pass
//! run and every whole-module optimization reads them at call time.  There
//! is no per-module copy: setting a knob changes what every subsequently
//! run pass observes, for every live module alike.

use vstd::prelude::*;

verus! {

/// The engine-wide optimizer knobs: tuning levels, debug-info retention,
/// and the inlining-size thresholds.
#[derive(Clone, Copy, PartialEq, Eq, Structural, Debug)]
pub struct OptimizerConfig {
    /// How aggressively to optimize for speed.
    pub optimize_level: i32,
    /// How aggressively to optimize for code size.
    pub shrink_level: i32,
    /// Whether debug information is kept through transformations.
    pub debug_info: bool,
    /// Functions at most this large are always inlined.
    pub always_inline_max_size: u32,
    /// Functions with one caller at most this large are inlined.
    pub one_caller_inline_max_size: u32,
}

impl OptimizerConfig {
    /// The configuration a fresh engine starts from.
    pub open spec fn init() -> OptimizerConfig {
        OptimizerConfig {
            optimize_level: 2,
            shrink_level: 1,
            debug_info: false,
            always_inline_max_size: 2,
            one_caller_inline_max_size: 2,
        }
    }

    /// This configuration with the optimize level replaced.
    pub open spec fn with_optimize_level(self, level: i32) -> OptimizerConfig {
        OptimizerConfig { optimize_level: level, ..self }
    }

    /// This configuration with the shrink level replaced.
    pub open spec fn with_shrink_level(self, level: i32) -> OptimizerConfig {
        OptimizerConfig { shrink_level: level, ..self }
    }

    /// This configuration with the debug-info flag replaced.
    pub open spec fn with_debug_info(self, debug: bool) -> OptimizerConfig {
        OptimizerConfig { debug_info: debug, ..self }
    }

    /// This configuration with the always-inline threshold replaced.
    pub open spec fn with_always_inline_max_size(self, max_size: u32) -> OptimizerConfig {
        OptimizerConfig { always_inline_max_size: max_size, ..self }
    }

    /// This configuration with the one-caller-inline threshold replaced.
    pub open spec fn with_one_caller_inline_max_size(self, max_size: u32) -> OptimizerConfig {
        OptimizerConfig { one_caller_inline_max_size: max_size, ..self }
    }
}

impl Default for OptimizerConfig {
    /// The configuration a fresh engine starts from.
    fn default() -> (c: OptimizerConfig)
        ensures
            c == OptimizerConfig::init(),
    {
        OptimizerConfig {
            optimize_level: 2,
            shrink_level: 1,
            debug_info: false,
            always_inline_max_size: 2,
            one_caller_inline_max_size: 2,
        }
    }
}

} // verus!
