use wasm_pipeline::DecodeError;
use wasm_pipeline::Engine;
use wasm_pipeline::Features;
use wasm_pipeline::Module;
use wasm_pipeline::PassError;

fn minimal_module() -> Vec<u8> {
    vec![0x00, 0x61, 0x73, 0x6d, 0x01, 0x00, 0x00, 0x00]
}

// A well-formed binary the engine's writer could produce for the minimal
// module: the same header followed by an empty custom section, standing
// in for the engine's canonicalized output.
fn canonicalized_module() -> Vec<u8> {
    let mut bytes = minimal_module();
    bytes.extend_from_slice(&[0x00, 0x01, 0x00]);
    bytes
}

fn check_ok(bytes: &[u8]) -> bool {
    wasm_pipeline::check_header(bytes).is_ok()
}

#[test]
fn scenario_decode_optimize_serialize_redecode() {
    let mut engine = Engine::new(Vec::new());
    let module = Module::from_bytes(&mut engine, &minimal_module(), true).unwrap();
    module.optimize(&mut engine);
    let bytes = module.into_binary(&mut engine, canonicalized_module()).unwrap();
    assert!(!bytes.is_empty());
    assert!(Module::from_bytes(&mut engine, &bytes, true).is_ok());
}

#[test]
fn round_trip_output_decodes_again() {
    let mut engine = Engine::new(Vec::new());
    let module = Module::from_bytes(&mut engine, &minimal_module(), true).unwrap();
    let bytes = module.into_binary(&mut engine, canonicalized_module()).unwrap();
    // The engine may canonicalize: the output need not be the input...
    assert_ne!(bytes, minimal_module());
    // ...but it is validated on the way out, so it decodes again.
    let again = Module::from_bytes(&mut engine, &bytes, true).unwrap();
    let bytes_again = again.into_binary(&mut engine, bytes.clone()).unwrap();
    assert!(check_ok(&bytes_again));
}

#[test]
fn invalid_engine_output_is_reported_not_returned() {
    let mut engine = Engine::new(Vec::new());
    let module = Module::from_bytes(&mut engine, &minimal_module(), true).unwrap();
    let h = module.handle();
    match module.into_binary(&mut engine, vec![0xde, 0xad]) {
        Err(e) => assert_eq!(e, DecodeError::Truncated),
        Ok(_) => panic!("output failing validation must not be returned"),
    }
    // The module is consumed either way: exactly one finalization.
    assert!(!engine.is_live(h));
    assert_eq!(engine.finalize_count(h), 1);
}

#[test]
fn exactly_one_finalization_per_module() {
    let mut engine = Engine::new(Vec::new());
    let first = Module::from_bytes(&mut engine, &minimal_module(), true).unwrap();
    let second = Module::from_bytes(&mut engine, &minimal_module(), true).unwrap();
    let (h1, h2) = (first.handle(), second.handle());
    assert_ne!(h1, h2);
    assert!(engine.is_live(h1) && engine.is_live(h2));
    assert_eq!(engine.finalize_count(h1), 0);
    assert_eq!(engine.finalize_count(h2), 0);

    let _bytes = first.into_binary(&mut engine, canonicalized_module()).unwrap();
    assert!(!engine.is_live(h1));
    assert_eq!(engine.finalize_count(h1), 1);
    // The sibling module's accounting is untouched.
    assert!(engine.is_live(h2));
    assert_eq!(engine.finalize_count(h2), 0);

    second.dispose(&mut engine);
    assert!(!engine.is_live(h2));
    assert_eq!(engine.finalize_count(h2), 1);
}

#[test]
fn run_passes_runs_known_pipeline() {
    let registry = vec!["dce".to_string(), "precompute".to_string()];
    let mut engine = Engine::new(registry);
    let module = Module::from_bytes(&mut engine, &minimal_module(), true).unwrap();
    let h = module.handle();
    let module = module
        .run_passes(&mut engine, &vec!["dce".to_string(), "dce".to_string()])
        .unwrap();
    assert!(engine.is_live(h));
    let config = engine.last_run_config(h).unwrap();
    assert_eq!(config, engine.config());
    let bytes = module.into_binary(&mut engine, canonicalized_module()).unwrap();
    assert!(check_ok(&bytes));
}

#[test]
fn registry_membership_is_exact() {
    let registry = vec!["dce".to_string(), "precompute".to_string()];
    let engine = Engine::new(registry);
    assert!(engine.knows_pass(&"dce".to_string()));
    assert!(engine.knows_pass(&"precompute".to_string()));
    assert!(!engine.knows_pass(&"not-a-real-pass".to_string()));
    assert!(!engine.knows_pass(&"dc".to_string()));
}

#[test]
fn unknown_pass_fails_and_consumes_module() {
    let registry = vec!["dce".to_string()];
    let mut engine = Engine::new(registry);
    let module = Module::from_bytes(&mut engine, &minimal_module(), true).unwrap();
    let h = module.handle();
    let err = match module.run_passes(
        &mut engine,
        &vec!["dce".to_string(), "not-a-real-pass".to_string(), "dce".to_string()],
    ) {
        Err(e) => e,
        Ok(_) => panic!("an unrecognized pass name must fail the call"),
    };
    assert_eq!(err.pass_name().as_str(), "not-a-real-pass");
    assert!(matches!(err, PassError::UnknownPass(_)));
    // Fatal: no usable module state is left, and its one finalization
    // event has happened.
    assert!(!engine.is_live(h));
    assert_eq!(engine.finalize_count(h), 1);
}

#[test]
fn feature_gated_module_decodes_only_with_flag() {
    // A binary whose body uses a gated extension: header-valid, but the
    // engine's parser rejects it under the default feature set and
    // accepts it once every flag is enabled.  The two verdicts below
    // replay the engine's, which only the binding layer can observe.
    let mut extended = minimal_module();
    extended.extend_from_slice(&[0x0c, 0x01, 0x00]);
    let mut engine = Engine::new(Vec::new());
    match Module::from_bytes_with_features(&mut engine, &extended, Features::none(), false) {
        Err(e) => assert_eq!(e, DecodeError::EngineRejected),
        Ok(_) => panic!("a gated extension must not decode without its flag"),
    }
    assert_eq!(engine.module_count(), 0);
    let module =
        Module::from_bytes_with_features(&mut engine, &extended, Features::all(), true).unwrap();
    assert!(engine.is_live(module.handle()));
    module.dispose(&mut engine);
}

#[test]
fn decode_with_features_rejects_malformed_input() {
    let mut engine = Engine::new(Vec::new());
    match Module::from_bytes_with_features(&mut engine, &[0x01, 0x02], Features::all(), true) {
        Err(e) => assert_eq!(e, DecodeError::Truncated),
        Ok(_) => panic!("malformed input must not decode under any feature set"),
    }
}
