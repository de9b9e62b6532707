use oviec::codegen::{AbiInfo, CodeModel, OptimizationLevel, RelocMode, TargetConfig};

#[test]
fn test_abi_configurations() {
    let system_v = AbiInfo::system_v();
    assert_eq!(system_v.stack_alignment, 16);
    assert!(system_v.param_registers.contains(&"rdi".to_string()));

    let windows_abi = AbiInfo::windows_x64();
    assert_eq!(windows_abi.stack_alignment, 16);
    assert!(windows_abi.param_registers.contains(&"rcx".to_string()));

    let arm64_abi = AbiInfo::arm64();
    assert_eq!(arm64_abi.stack_alignment, 16);
    assert!(arm64_abi.param_registers.contains(&"x0".to_string()));
}

#[test]
fn abi_register_order() {
    assert_eq!(AbiInfo::system_v().param_registers, vec!["rdi", "rsi", "rdx", "rcx", "r8", "r9"]);
    assert_eq!(AbiInfo::windows_x64().param_registers, vec!["rcx", "rdx", "r8", "r9"]);
    assert_eq!(AbiInfo::arm64().param_registers.len(), 8);
}

#[test]
fn test_target_configurations() {
    let windows_config = TargetConfig::windows_x64();
    assert_eq!(windows_config.triple, "x86_64-pc-windows-msvc");
    assert!(!windows_config.pic);
    assert_eq!(windows_config.reloc_mode, RelocMode::Static);

    let linux_config = TargetConfig::linux_x64();
    assert_eq!(linux_config.triple, "x86_64-unknown-linux-gnu");
    assert!(linux_config.pic);
    assert_eq!(linux_config.reloc_mode, RelocMode::PIC);

    let arm64_config = TargetConfig::arm64_linux();
    assert_eq!(arm64_config.triple, "aarch64-unknown-linux-gnu");
    assert!(arm64_config.cpu_features.contains(&"neon".to_string()));
}

#[test]
fn default_target_is_linux_x64_without_features() {
    let c = TargetConfig::default();
    assert_eq!(c.triple, "x86_64-unknown-linux-gnu");
    assert!(c.cpu_features.is_empty());
    assert_eq!(c.optimization_level, OptimizationLevel::Default);
    assert_eq!(c.code_model, CodeModel::Default);
    assert_eq!(TargetConfig::macos_x64().cpu_features, vec!["sse2", "sse3", "sse4.1"]);
    assert_eq!(TargetConfig::arm64_macos().triple, "aarch64-apple-darwin");
}

#[test]
fn abi_follows_the_triple() {
    assert_eq!(AbiInfo::for_triple("x86_64-pc-windows-msvc").param_registers, vec!["rcx", "rdx", "r8", "r9"]);
    assert_eq!(AbiInfo::for_triple("aarch64-apple-darwin").param_registers.len(), 8);
    assert_eq!(AbiInfo::for_triple("x86_64-unknown-linux-gnu").param_registers[0], "rdi");
}
