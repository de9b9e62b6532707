use oviec::cross_target::{
    analyze_consistency, check_wasm_module, generate_summary, overall_success, platform_guarantees, GuaranteeType,
    TargetPlatform, TargetValidationResult,
};

fn result(triple: &str, backend: &str, ok: bool, hash: Option<&str>, errors: usize, warnings: usize) -> TargetValidationResult {
    TargetValidationResult {
        target: TargetPlatform::new(triple.to_string(), backend.to_string()),
        compilation_success: ok,
        code_hash: hash.map(|h| h.to_string()),
        compilation_time_ms: Some(5),
        code_size: Some(100),
        errors: (0..errors).map(|i| format!("e{}", i)).collect(),
        warnings: (0..warnings).map(|i| format!("w{}", i)).collect(),
        guarantees: vec![],
    }
}

#[test]
fn test_target_platform_creation() {
    let target = TargetPlatform::new("x86_64-unknown-linux-gnu".to_string(), "llvm".to_string());
    assert_eq!(target.arch, "x86_64");
    assert_eq!(target.os, "linux");
    assert_eq!(target.abi, "gnu");
    assert_eq!(target.backend, "llvm");
}

#[test]
fn test_platform_guarantees() {
    let target = TargetPlatform::new("wasm32-unknown-unknown".to_string(), "wasm".to_string());
    let guarantees = platform_guarantees(true, &target, true);

    assert!(!guarantees.is_empty());
    assert!(guarantees.iter().any(|g| g.guarantee_type == GuaranteeType::SemanticConsistency));
    assert!(guarantees.iter().any(|g| g.guarantee_type == GuaranteeType::MemorySafety));
}

#[test]
fn short_triples_have_unknown_parts() {
    let target = TargetPlatform::new("wasm32-wasi".to_string(), "wasm".to_string());
    assert_eq!(target.arch, "wasm32");
    assert_eq!(target.os, "unknown");
    assert_eq!(target.abi, "unknown");
    let single = TargetPlatform::new("riscv".to_string(), "llvm".to_string());
    assert_eq!(single.arch, "riscv");
    assert_eq!(single.os, "unknown");
}

#[test]
fn target_lists() {
    let llvm = TargetPlatform::llvm_targets();
    assert_eq!(llvm.len(), 5);
    assert_eq!(llvm[1].triple, "x86_64-pc-windows-gnu");
    assert_eq!(llvm[1].os, "windows");
    let wasm = TargetPlatform::wasm_targets();
    assert_eq!(wasm.len(), 3);
    assert!(wasm.iter().all(|t| t.backend == "wasm"));
    assert_eq!(TargetPlatform::all_targets().len(), 3);
}

#[test]
fn guarantees_per_backend() {
    let llvm = TargetPlatform::new("aarch64-unknown-linux-gnu".to_string(), "llvm".to_string());
    let g = platform_guarantees(false, &llvm, false);
    assert_eq!(g.len(), 3);
    assert_eq!(g[2].guarantee_type, GuaranteeType::AbiCompatibility);
    assert_eq!(g[2].details.get("abi_type").map(|s| s.as_str()), Some("gnu"));
    assert!(g.iter().all(|x| !x.validated));

    let wasm = TargetPlatform::new("wasm32-wasi".to_string(), "wasm".to_string());
    let g = platform_guarantees(true, &wasm, true);
    assert_eq!(g.len(), 4);
    assert_eq!(g[2].guarantee_type, GuaranteeType::Determinism);
    assert_eq!(g[3].guarantee_type, GuaranteeType::PlatformOptimization);
    assert_eq!(g[3].details.get("optimization_type").map(|s| s.as_str()), Some("size_and_speed"));

    let other = TargetPlatform::new("x-y-z".to_string(), "interpreter".to_string());
    assert_eq!(platform_guarantees(false, &other, true).len(), 2);
}

#[test]
fn consistency_groups_by_hash() {
    let results = vec![
        result("wasm32-unknown-unknown", "wasm", true, Some("aa"), 0, 0),
        result("wasm32-wasi", "wasm", true, Some("bb"), 0, 1),
        result("wasm64-unknown-unknown", "wasm", true, Some("aa"), 0, 0),
        result("x-y-z", "wasm", false, None, 2, 0),
    ];
    let c = analyze_consistency(true, &results);
    assert!(!c.semantic_consistency);
    assert!(!c.deterministic_consistency);
    assert_eq!(c.hash_consistency.len(), 2);
    assert_eq!(c.hash_consistency[0].0, "aa");
    assert_eq!(c.hash_consistency[0].1.len(), 2);
    assert_eq!(c.hash_consistency[0].1[1].triple, "wasm64-unknown-unknown");
    assert_eq!(c.hash_consistency[1].0, "bb");
    assert_eq!(
        c.inconsistencies,
        vec![
            "Deterministic builds produced different outputs across targets".to_string(),
            "Target x-y-z failed compilation".to_string()
        ]
    );
    assert!(!overall_success(&c, &results));

    let c2 = analyze_consistency(false, &results);
    assert!(c2.deterministic_consistency);
    assert!(c2.hash_consistency.is_empty());
    assert_eq!(c2.inconsistencies, vec!["Target x-y-z failed compilation".to_string()]);
}

#[test]
fn consistent_results_succeed() {
    let results = vec![
        result("wasm32-unknown-unknown", "wasm", true, Some("aa"), 0, 0),
        result("wasm32-wasi", "wasm", true, Some("aa"), 0, 0),
    ];
    let c = analyze_consistency(true, &results);
    assert!(c.semantic_consistency && c.deterministic_consistency);
    assert!(c.inconsistencies.is_empty());
    assert!(overall_success(&c, &results));
}

#[test]
fn summary_counts() {
    let results = vec![
        result("a-b-c", "wasm", true, Some("aa"), 0, 2),
        result("d-e-f", "wasm", false, None, 3, 1),
    ];
    let s = generate_summary(&results, 42);
    assert_eq!(s.total_targets, 2);
    assert_eq!(s.successful_targets, 1);
    assert_eq!(s.failed_targets, 1);
    assert_eq!(s.total_errors, 3);
    assert_eq!(s.total_warnings, 3);
    assert_eq!(s.validation_duration_ms, 42);
}

#[test]
fn wasm_module_checks() {
    let mut errors = Vec::new();
    let mut warnings = Vec::new();
    assert!(!check_wasm_module(&[0, 0x61, 0x73], &mut errors, &mut warnings));
    assert_eq!(errors, vec!["Generated WASM module too small".to_string()]);

    let mut errors = Vec::new();
    assert!(!check_wasm_module(&[1, 2, 3, 4, 1, 0, 0, 0], &mut errors, &mut warnings));
    assert_eq!(errors, vec!["Invalid WASM magic number".to_string()]);
    assert!(warnings.is_empty());

    let mut errors = Vec::new();
    assert!(check_wasm_module(&[0, 0x61, 0x73, 0x6d, 2, 0, 0, 0], &mut errors, &mut warnings));
    assert!(errors.is_empty());
    assert_eq!(warnings, vec!["Non-standard WASM version".to_string()]);

    let mut warnings = Vec::new();
    assert!(check_wasm_module(&[0, 0x61, 0x73, 0x6d, 1, 0, 0, 0, 9], &mut errors, &mut warnings));
    assert!(errors.is_empty() && warnings.is_empty());
}
