use wasm_pipeline::Engine;
use wasm_pipeline::Features;
use wasm_pipeline::Module;
use wasm_pipeline::OptimizerConfig;

fn minimal_module() -> Vec<u8> {
    vec![0x00, 0x61, 0x73, 0x6d, 0x01, 0x00, 0x00, 0x00]
}

#[test]
fn fresh_engine_starts_from_initial_configuration() {
    let engine = Engine::new(Vec::new());
    let config = engine.config();
    assert_eq!(config, OptimizerConfig::default());
    assert_eq!(config.optimize_level, 2);
    assert_eq!(config.shrink_level, 1);
    assert!(!config.debug_info);
    assert_eq!(config.always_inline_max_size, 2);
    assert_eq!(config.one_caller_inline_max_size, 2);
}

#[test]
fn setters_update_each_knob() {
    let mut engine = Engine::new(Vec::new());
    let module = Module::from_bytes(&mut engine, &minimal_module(), true).unwrap();
    module.set_optimize_level(&mut engine, 3);
    module.set_shrink_level(&mut engine, 2);
    module.set_debug_info(&mut engine, true);
    module.set_always_inline_max_size(&mut engine, 16);
    module.set_one_caller_inline_max_size(&mut engine, 64);
    let config = engine.config();
    assert_eq!(config.optimize_level, 3);
    assert_eq!(config.shrink_level, 2);
    assert!(config.debug_info);
    assert_eq!(config.always_inline_max_size, 16);
    assert_eq!(config.one_caller_inline_max_size, 64);
    module.dispose(&mut engine);
}

#[test]
fn configuration_is_engine_wide_and_read_at_call_time() {
    let mut engine = Engine::new(Vec::new());
    let knob = Module::from_bytes(&mut engine, &minimal_module(), true).unwrap();
    knob.set_optimize_level(&mut engine, 0);
    knob.set_optimize_level(&mut engine, 3);
    // A module decoded only after the second setting still observes
    // level 3 when it runs: the knob is engine-wide, not per module.
    let fresh = Module::from_bytes(&mut engine, &minimal_module(), true).unwrap();
    let h = fresh.handle();
    assert_eq!(engine.last_run_config(h), None);
    fresh.optimize(&mut engine);
    let seen = engine.last_run_config(h).unwrap();
    assert_eq!(seen.optimize_level, 3);
    knob.dispose(&mut engine);
    fresh.dispose(&mut engine);
}

#[test]
fn features_bitsets_hold_their_flags() {
    assert_eq!(Features::all().bits(), u32::MAX);
    assert_eq!(Features::none().bits(), 0);
    assert_eq!(Features::from_bits(0b1010).bits(), 0b1010);
}

#[test]
fn features_containment_is_bitwise() {
    let set = Features::from_bits(0b1010);
    assert!(set.contains(Features::from_bits(0b0010)));
    assert!(set.contains(Features::none()));
    assert!(!set.contains(Features::from_bits(0b0100)));
    assert!(Features::all().contains(set));
    assert!(Features::all().contains(Features::all()));
}
