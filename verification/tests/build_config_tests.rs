use oviec::build_config::{compiler_version, sha256_hex_of, Backend, BuildMetadata, Compiler, DeterministicBuildConfig};

#[test]
fn sha256_of_known_texts() {
    assert_eq!(sha256_hex_of(""), "e3b0c44298fc1c149afbf4c8996fb92427ae41e4649b934ca495991b7852b855");
    assert_eq!(sha256_hex_of("fn main() {}"), "ef32637cb9c3ec2e3968c9cbdf26a5e9c172be94f88af533e14bd43f892d5297");
}

#[test]
fn deterministic_build_hash() {
    let config = DeterministicBuildConfig::new_deterministic("x86_64");
    assert_eq!(config.get_timestamp(), 1640995200);
    assert_eq!(config.compute_build_hash(), "230cce8b6e4e504853722b1cabf99a0972b897d45b8d468993a7a30f207168ce");
    assert_eq!(config.compute_build_hash(), config.duplicate().compute_build_hash());
}

#[test]
fn build_hash_covers_source_and_sorted_env() {
    let mut config = DeterministicBuildConfig::new_deterministic("wasm32");
    config.with_source("fn main() {}");
    config.with_env_var("Z".to_string(), "9".to_string());
    config.with_env_var("A".to_string(), "0".to_string());
    config.with_env_var("A".to_string(), "1B2".to_string());
    assert_eq!(config.source_hash.as_deref(), Some("ef32637cb9c3ec2e3968c9cbdf26a5e9c172be94f88af533e14bd43f892d5297"));
    assert_eq!(config.build_metadata.source_hash, "ef32637cb9c3ec2e3968c9cbdf26a5e9c172be94f88af533e14bd43f892d5297");
    assert_eq!(config.env_vars.len(), 2);
    assert_eq!(config.env_vars.entries()[0].0, "A");
    assert_eq!(config.compute_build_hash(), "b13dae29b5421cc2a54b85c8ca3f4a7abcaa1e45f05bcb8f76059575518b4ca7");
    assert_eq!(
        config.compute_build_hash_at(1640995200),
        "b13dae29b5421cc2a54b85c8ca3f4a7abcaa1e45f05bcb8f76059575518b4ca7"
    );
    assert_ne!(config.compute_build_hash_at(1), config.compute_build_hash());
}

#[test]
fn metadata_records() {
    let mut m = BuildMetadata::new_with_timestamp(77, "aarch64");
    assert_eq!(m.compiler_version, compiler_version());
    assert_eq!(m.build_timestamp, 77);
    m.add_dependency_hash("b".to_string(), "2".to_string());
    m.add_dependency_hash("a".to_string(), "1".to_string());
    m.add_dependency_hash("b".to_string(), "3".to_string());
    m.add_build_flag("-O".to_string());
    assert_eq!(m.dependency_hashes.get("b").map(|s| s.as_str()), Some("3"));
    assert_eq!(m.dependency_hashes.entries()[0].0, "a");
    assert_eq!(m.build_flags, vec!["-O".to_string()]);
    let copy = m.duplicate();
    assert_eq!(copy.target_platform, "aarch64");
    assert_eq!(copy.dependency_hashes.len(), 2);
}

#[test]
fn non_deterministic_config() {
    let c = DeterministicBuildConfig::new("x86_64");
    assert!(c.fixed_timestamp.is_none());
    assert!(!c.deterministic_output);
    assert!(c.get_timestamp() > 1640995200);
}

#[test]
fn backend_names() {
    assert_eq!(Backend::from_str("WASM"), Some(Backend::Wasm));
    assert_eq!(Backend::from_str("WebAssembly"), Some(Backend::Wasm));
    assert_eq!(Backend::from_str("ast"), Some(Backend::Interpreter));
    assert_eq!(Backend::from_str("IR"), Some(Backend::IrInterpreter));
    assert_eq!(Backend::from_str("ir-interpreter"), Some(Backend::IrInterpreter));
    assert_eq!(Backend::from_str("Hir"), Some(Backend::Hir));
    assert_eq!(Backend::from_str("mir"), Some(Backend::Mir));
    assert_eq!(Backend::from_str("llvm"), None);
    assert_eq!(Backend::from_str(""), None);
    for b in [Backend::Wasm, Backend::Interpreter, Backend::IrInterpreter, Backend::Hir, Backend::Mir] {
        assert_eq!(Backend::from_str(b.name()), Some(b));
    }
}

#[test]
fn compiler_settings() {
    let c = Compiler::new("x86_64");
    assert!(!c.debug && !c.strict_invariants);
    assert_eq!(c.default_backend, Backend::Interpreter);
    assert!(Compiler::new_with_debug("x").debug);
    assert_eq!(Compiler::new_with_backend(Backend::Hir, "x").default_backend, Backend::Hir);
    assert_eq!(Compiler::new_deterministic("x").build_config.fixed_timestamp, Some(1640995200));
    let mut s = Compiler::new_with_strict_invariants("x");
    assert!(s.strict_invariants);
    s.set_strict_invariants(false);
    assert!(!s.strict_invariants);
    let with = Compiler::new("x").with_build_config(DeterministicBuildConfig::new_deterministic("y"));
    assert_eq!(with.build_config.build_metadata.target_platform, "y");
}

#[test]
fn deterministic_hash_is_reproducible_and_order_free() {
    let mut a = DeterministicBuildConfig::new_deterministic("x86_64-linux");
    a.with_source("seeAm 1");
    a.with_env_var("B".to_string(), "2".to_string());
    a.with_env_var("A".to_string(), "1".to_string());
    let mut b = DeterministicBuildConfig::new_deterministic("x86_64-linux");
    b.with_source("seeAm 1");
    b.with_env_var("A".to_string(), "1".to_string());
    b.with_env_var("B".to_string(), "2".to_string());
    assert_eq!(a.compute_build_hash(), a.compute_build_hash());
    assert_eq!(a.compute_build_hash(), b.compute_build_hash());
}
