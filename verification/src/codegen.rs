//! Code generation: the interface of backends, and the configurations and
//! calling conventions of native targets.

use vstd::prelude::*;
use crate::ir::Program;
use crate::text::{contains_text, has_substring, owned};

verus! {

/// Interface of code generation backends.
pub trait CodegenBackend {
    type Output;
    type Error;

    /// Generate code from IR.
    fn generate(&mut self, ir: &Program) -> Result<Self::Output, Self::Error>;

    /// Get the backend name.
    fn name(&self) -> &'static str;

    /// Check if the backend supports the given target.
    fn supports_target(&self, target: &str) -> bool;
}

/// How a function returns its value.
#[derive(Debug, Clone, Copy, PartialEq, Eq, Structural)]
pub enum ReturnHandling {
    /// Return in register
    Register,
    /// Return via stack
    Stack,
    /// Return via hidden parameter
    HiddenParameter,
}

/// ABI calling convention information.
#[derive(Debug, Clone)]
pub struct AbiInfo {
    /// Calling convention for the target
    pub calling_convention: u32,
    /// Stack alignment requirements
    pub stack_alignment: u32,
    /// Register usage for parameters, in order
    pub param_registers: Vec<String>,
    /// Return value handling
    pub return_handling: ReturnHandling,
}

/// The parameter registers of a calling convention, as plain values.
pub open spec fn registers_view(v: Seq<String>) -> Seq<Seq<char>> {
    v.map_values(|r: String| r@)
}

/// A calling convention with the default convention number, 16-byte stack
/// alignment and results returned in a register.
pub open spec fn register_abi(a: AbiInfo, registers: Seq<Seq<char>>) -> bool {
    &&& a.calling_convention == 0
    &&& a.stack_alignment == 16
    &&& registers_view(a.param_registers@) == registers
    &&& a.return_handling == ReturnHandling::Register
}

fn texts(items: &[&str]) -> (r: Vec<String>)
    ensures
        registers_view(r@) == items@.map_values(|s: &str| s@),
{
    let mut r: Vec<String> = Vec::new();
    let mut i: usize = 0;
    while i < items.len()
        invariant
            i <= items@.len(),
            r@.len() == i,
            forall|j: int| 0 <= j < i ==> (#[trigger] r@[j])@ == items@[j]@,
        decreases items@.len() - i,
    {
        r.push(owned(items[i]));
        i = i + 1;
    }
    assert(registers_view(r@) =~= items@.map_values(|s: &str| s@));
    r
}

impl AbiInfo {
    /// ABI info for System V (Linux/macOS): parameters in rdi, rsi, rdx,
    /// rcx, r8, r9.
    pub fn system_v() -> (r: Self)
        ensures
            register_abi(r, seq!["rdi"@, "rsi"@, "rdx"@, "rcx"@, "r8"@, "r9"@]),
    {
        let items = ["rdi", "rsi", "rdx", "rcx", "r8", "r9"];
        let regs = texts(&items);
        assert(items@.map_values(|s: &str| s@) =~= seq!["rdi"@, "rsi"@, "rdx"@, "rcx"@, "r8"@, "r9"@]);
        AbiInfo { calling_convention: 0, stack_alignment: 16, param_registers: regs, return_handling: ReturnHandling::Register }
    }

    /// ABI info for Windows x64: parameters in rcx, rdx, r8, r9.
    pub fn windows_x64() -> (r: Self)
        ensures
            register_abi(r, seq!["rcx"@, "rdx"@, "r8"@, "r9"@]),
    {
        let items = ["rcx", "rdx", "r8", "r9"];
        let regs = texts(&items);
        assert(items@.map_values(|s: &str| s@) =~= seq!["rcx"@, "rdx"@, "r8"@, "r9"@]);
        AbiInfo { calling_convention: 0, stack_alignment: 16, param_registers: regs, return_handling: ReturnHandling::Register }
    }

    /// ABI info for ARM64: parameters in x0 to x7.
    pub fn arm64() -> (r: Self)
        ensures
            register_abi(r, seq!["x0"@, "x1"@, "x2"@, "x3"@, "x4"@, "x5"@, "x6"@, "x7"@]),
    {
        let items = ["x0", "x1", "x2", "x3", "x4", "x5", "x6", "x7"];
        let regs = texts(&items);
        assert(items@.map_values(|s: &str| s@) =~= seq!["x0"@, "x1"@, "x2"@, "x3"@, "x4"@, "x5"@, "x6"@, "x7"@]);
        AbiInfo { calling_convention: 0, stack_alignment: 16, param_registers: regs, return_handling: ReturnHandling::Register }
    }
}

/// Optimization level of native code generation.
#[derive(Debug, Clone, Copy, PartialEq, Eq, Structural)]
pub enum OptimizationLevel {
    Disabled,
    Less,
    Default,
    Aggressive,
}

/// Code model of native code generation.
#[derive(Debug, Clone, Copy, PartialEq, Eq, Structural)]
pub enum CodeModel {
    Default,
    JITDefault,
    Small,
    Kernel,
    Medium,
    Large,
}

/// Relocation mode of native code generation.
#[derive(Debug, Clone, Copy, PartialEq, Eq, Structural)]
pub enum RelocMode {
    Default,
    Static,
    PIC,
    DynamicNoPic,
}

/// Target platform configuration.
#[derive(Debug, Clone)]
pub struct TargetConfig {
    /// Target triple (e.g., "x86_64-unknown-linux-gnu")
    pub triple: String,
    /// CPU features to enable
    pub cpu_features: Vec<String>,
    /// Optimization level
    pub optimization_level: OptimizationLevel,
    /// Position independent code
    pub pic: bool,
    /// Code model
    pub code_model: CodeModel,
    /// Relocation mode
    pub reloc_mode: RelocMode,
}

/// A configuration for a triple with the given features, position
/// independence and relocation mode, the default optimization level and
/// the default code model.
pub open spec fn target_config_is(
    c: TargetConfig,
    triple: Seq<char>,
    features: Seq<Seq<char>>,
    pic: bool,
    reloc: RelocMode,
) -> bool {
    &&& c.triple@ == triple
    &&& registers_view(c.cpu_features@) == features
    &&& c.optimization_level == OptimizationLevel::Default
    &&& c.pic == pic
    &&& c.code_model == CodeModel::Default
    &&& c.reloc_mode == reloc
}

impl Default for TargetConfig {
    /// Linux on x86_64, no extra features, position independent.
    fn default() -> (r: Self)
        ensures
            target_config_is(r, "x86_64-unknown-linux-gnu"@, seq![], true, RelocMode::PIC),
    {
        let r = TargetConfig {
            triple: owned("x86_64-unknown-linux-gnu"),
            cpu_features: Vec::new(),
            optimization_level: OptimizationLevel::Default,
            pic: true,
            code_model: CodeModel::Default,
            reloc_mode: RelocMode::PIC,
        };
        assert(registers_view(r.cpu_features@) =~= Seq::<Seq<char>>::empty());
        r
    }
}

impl TargetConfig {
    fn with(triple: &str, features: &[&str], pic: bool, reloc_mode: RelocMode) -> (r: Self)
        ensures
            target_config_is(r, triple@, features@.map_values(|s: &str| s@), pic, reloc_mode),
    {
        TargetConfig {
            triple: owned(triple),
            cpu_features: texts(features),
            optimization_level: OptimizationLevel::Default,
            pic,
            code_model: CodeModel::Default,
            reloc_mode,
        }
    }

    /// Configuration for Windows x64: SSE2 and SSE3, static relocation.
    pub fn windows_x64() -> (r: Self)
        ensures
            target_config_is(r, "x86_64-pc-windows-msvc"@, seq!["sse2"@, "sse3"@], false, RelocMode::Static),
    {
        let f = ["sse2", "sse3"];
        assert(f@.map_values(|s: &str| s@) =~= seq!["sse2"@, "sse3"@]);
        TargetConfig::with("x86_64-pc-windows-msvc", &f, false, RelocMode::Static)
    }

    /// Configuration for Linux x64: SSE2, SSE3 and SSE4.1, position
    /// independent.
    pub fn linux_x64() -> (r: Self)
        ensures
            target_config_is(r, "x86_64-unknown-linux-gnu"@, seq!["sse2"@, "sse3"@, "sse4.1"@], true, RelocMode::PIC),
    {
        let f = ["sse2", "sse3", "sse4.1"];
        assert(f@.map_values(|s: &str| s@) =~= seq!["sse2"@, "sse3"@, "sse4.1"@]);
        TargetConfig::with("x86_64-unknown-linux-gnu", &f, true, RelocMode::PIC)
    }

    /// Configuration for macOS x64: SSE2, SSE3 and SSE4.1, position
    /// independent.
    pub fn macos_x64() -> (r: Self)
        ensures
            target_config_is(r, "x86_64-apple-darwin"@, seq!["sse2"@, "sse3"@, "sse4.1"@], true, RelocMode::PIC),
    {
        let f = ["sse2", "sse3", "sse4.1"];
        assert(f@.map_values(|s: &str| s@) =~= seq!["sse2"@, "sse3"@, "sse4.1"@]);
        TargetConfig::with("x86_64-apple-darwin", &f, true, RelocMode::PIC)
    }

    /// Configuration for ARM64 Linux: NEON, position independent.
    pub fn arm64_linux() -> (r: Self)
        ensures
            target_config_is(r, "aarch64-unknown-linux-gnu"@, seq!["neon"@], true, RelocMode::PIC),
    {
        let f = ["neon"];
        assert(f@.map_values(|s: &str| s@) =~= seq!["neon"@]);
        TargetConfig::with("aarch64-unknown-linux-gnu", &f, true, RelocMode::PIC)
    }

    /// Configuration for ARM64 macOS: NEON, position independent.
    pub fn arm64_macos() -> (r: Self)
        ensures
            target_config_is(r, "aarch64-apple-darwin"@, seq!["neon"@], true, RelocMode::PIC),
    {
        let f = ["neon"];
        assert(f@.map_values(|s: &str| s@) =~= seq!["neon"@]);
        TargetConfig::with("aarch64-apple-darwin", &f, true, RelocMode::PIC)
    }
}

/// The calling convention a native backend uses for a target triple:
/// Windows x64 for a Windows triple, ARM64 for an AArch64 one, System V
/// otherwise.
pub open spec fn abi_registers_for(triple: Seq<char>) -> Seq<Seq<char>> {
    if has_substring(triple, "windows"@) {
        seq!["rcx"@, "rdx"@, "r8"@, "r9"@]
    } else if has_substring(triple, "aarch64"@) {
        seq!["x0"@, "x1"@, "x2"@, "x3"@, "x4"@, "x5"@, "x6"@, "x7"@]
    } else {
        seq!["rdi"@, "rsi"@, "rdx"@, "rcx"@, "r8"@, "r9"@]
    }
}

impl AbiInfo {
    /// The calling convention of a target triple: Windows x64 when the
    /// triple names Windows, ARM64 when it names AArch64, System V
    /// otherwise.
    pub fn for_triple(triple: &str) -> (r: Self)
        ensures
            register_abi(r, abi_registers_for(triple@)),
    {
        if contains_text(triple, "windows") {
            AbiInfo::windows_x64()
        } else if contains_text(triple, "aarch64") {
            AbiInfo::arm64()
        } else {
            AbiInfo::system_v()
        }
    }
}

} // verus!
