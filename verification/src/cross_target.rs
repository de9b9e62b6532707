//! Cross-target consistency: target platforms, the guarantees documented
//! for each, and the analysis of the results of compiling for several
//! targets.

use vstd::prelude::*;
use crate::text::{append, chars_of, owned, push_char};
use crate::text_map::{upsert, TextMap};

verus! {

/// The pieces of a text between its `-` characters.
pub open spec fn split_dash(s: Seq<char>) -> Seq<Seq<char>>
    decreases s.len(),
{
    if s.len() == 0 {
        seq![seq![]]
    } else {
        let rest = split_dash(s.drop_last());
        if s.last() == '-' {
            rest.push(seq![])
        } else {
            rest.update(rest.len() - 1, rest.last().push(s.last()))
        }
    }
}

/// There is always at least one piece.
pub proof fn lemma_split_dash_nonempty(s: Seq<char>)
    ensures
        split_dash(s).len() >= 1,
    decreases s.len(),
{
    if s.len() > 0 {
        lemma_split_dash_nonempty(s.drop_last());
    }
}

/// Piece `k` of a split text, or `unknown` when there are fewer pieces.
pub open spec fn piece_or_unknown(pieces: Seq<Seq<char>>, k: int) -> Seq<char> {
    if k < pieces.len() {
        pieces[k]
    } else {
        "unknown"@
    }
}

/// Target platform as plain values.
pub struct TargetView {
    pub triple: Seq<char>,
    pub arch: Seq<char>,
    pub os: Seq<char>,
    pub abi: Seq<char>,
    pub backend: Seq<char>,
}

/// Target platform information.
#[derive(Debug, Clone)]
pub struct TargetPlatform {
    /// Target triple
    pub triple: String,
    /// Architecture
    pub arch: String,
    /// Operating system
    pub os: String,
    /// ABI
    pub abi: String,
    /// Backend type
    pub backend: String,
}

impl View for TargetPlatform {
    type V = TargetView;

    open spec fn view(&self) -> TargetView {
        TargetView {
            triple: self.triple@,
            arch: self.arch@,
            os: self.os@,
            abi: self.abi@,
            backend: self.backend@,
        }
    }
}

/// The target platform of a triple `arch-vendor-os-abi` and a backend.
pub open spec fn target_of(triple: Seq<char>, backend: Seq<char>) -> TargetView {
    TargetView {
        triple,
        arch: piece_or_unknown(split_dash(triple), 0),
        os: piece_or_unknown(split_dash(triple), 2),
        abi: piece_or_unknown(split_dash(triple), 3),
        backend,
    }
}

/// The pieces of `w` between its `-` characters.
fn split_on_dash(w: &Vec<char>) -> (r: Vec<String>)
    ensures
        r@.map_values(|p: String| p@) == split_dash(w@),
{
    let mut pieces: Vec<String> = Vec::new();
    let mut current = String::new();
    let mut i: usize = 0;
    proof {
        assert(w@.take(0) =~= Seq::<char>::empty());
    }
    while i < w.len()
        invariant
            i <= w@.len(),
            pieces@.map_values(|p: String| p@).push(current@) == split_dash(w@.take(i as int)),
        decreases w@.len() - i,
    {
        assert(w@.take(i + 1).drop_last() =~= w@.take(i as int));
        let ghost before = pieces@.map_values(|p: String| p@).push(current@);
        if w[i] == '-' {
            let done = current;
            pieces.push(done);
            current = String::new();
            assert(pieces@.map_values(|p: String| p@).push(current@) =~= before.push(seq![]));
        } else {
            push_char(&mut current, w[i]);
            assert(pieces@.map_values(|p: String| p@).push(current@) =~= before.update(
                before.len() - 1,
                before.last().push(w@[i as int]),
            ));
        }
        i = i + 1;
    }
    assert(w@.take(i as int) =~= w@);
    pieces.push(current);
    pieces
}

impl TargetPlatform {
    /// Create a new target platform: the architecture, operating system
    /// and ABI are the first, third and fourth `-`-separated pieces of the
    /// triple (`unknown` where the triple has fewer pieces).
    pub fn new(triple: String, backend: String) -> (r: Self)
        ensures
            r@ == target_of(triple@, backend@),
    {
        let w = chars_of(triple.as_str());
        let pieces = split_on_dash(&w);
        proof {
            reveal_strlit("unknown");
            lemma_split_dash_nonempty(w@);
        }
        let arch = pieces[0].clone();
        let os = if pieces.len() > 2 { pieces[2].clone() } else { owned("unknown") };
        let abi = if pieces.len() > 3 { pieces[3].clone() } else { owned("unknown") };
        TargetPlatform { triple, arch, os, abi, backend }
    }

    /// Supported LLVM targets.
    pub fn llvm_targets() -> (r: Vec<Self>)
        ensures
            r@.map_values(|t: TargetPlatform| t@) == seq![
                target_of("x86_64-unknown-linux-gnu"@, "llvm"@),
                target_of("x86_64-pc-windows-gnu"@, "llvm"@),
                target_of("x86_64-apple-darwin"@, "llvm"@),
                target_of("aarch64-unknown-linux-gnu"@, "llvm"@),
                target_of("aarch64-apple-darwin"@, "llvm"@),
            ],
    {
        let r = vec![
            TargetPlatform::new(owned("x86_64-unknown-linux-gnu"), owned("llvm")),
            TargetPlatform::new(owned("x86_64-pc-windows-gnu"), owned("llvm")),
            TargetPlatform::new(owned("x86_64-apple-darwin"), owned("llvm")),
            TargetPlatform::new(owned("aarch64-unknown-linux-gnu"), owned("llvm")),
            TargetPlatform::new(owned("aarch64-apple-darwin"), owned("llvm")),
        ];
        assert(r@.map_values(|t: TargetPlatform| t@) =~= seq![
            target_of("x86_64-unknown-linux-gnu"@, "llvm"@),
            target_of("x86_64-pc-windows-gnu"@, "llvm"@),
            target_of("x86_64-apple-darwin"@, "llvm"@),
            target_of("aarch64-unknown-linux-gnu"@, "llvm"@),
            target_of("aarch64-apple-darwin"@, "llvm"@),
        ]);
        r
    }

    /// Supported WASM targets.
    pub fn wasm_targets() -> (r: Vec<Self>)
        ensures
            r@.map_values(|t: TargetPlatform| t@) == seq![
                target_of("wasm32-unknown-unknown"@, "wasm"@),
                target_of("wasm32-wasi"@, "wasm"@),
                target_of("wasm64-unknown-unknown"@, "wasm"@),
            ],
    {
        let r = vec![
            TargetPlatform::new(owned("wasm32-unknown-unknown"), owned("wasm")),
            TargetPlatform::new(owned("wasm32-wasi"), owned("wasm")),
            TargetPlatform::new(owned("wasm64-unknown-unknown"), owned("wasm")),
        ];
        assert(r@.map_values(|t: TargetPlatform| t@) =~= seq![
            target_of("wasm32-unknown-unknown"@, "wasm"@),
            target_of("wasm32-wasi"@, "wasm"@),
            target_of("wasm64-unknown-unknown"@, "wasm"@),
        ]);
        r
    }

    /// All supported targets: the WASM targets (the LLVM backend is not
    /// built in).
    pub fn all_targets() -> (r: Vec<Self>)
        ensures
            r@.map_values(|t: TargetPlatform| t@) == seq![
                target_of("wasm32-unknown-unknown"@, "wasm"@),
                target_of("wasm32-wasi"@, "wasm"@),
                target_of("wasm64-unknown-unknown"@, "wasm"@),
            ],
    {
        TargetPlatform::wasm_targets()
    }

    /// A copy of this target.
    pub fn duplicate(&self) -> (r: Self)
        ensures
            r@ == self@,
    {
        TargetPlatform {
            triple: self.triple.clone(),
            arch: self.arch.clone(),
            os: self.os.clone(),
            abi: self.abi.clone(),
            backend: self.backend.clone(),
        }
    }
}

/// Types of platform guarantees.
#[derive(Debug, Clone, Copy, PartialEq, Eq, Structural)]
pub enum GuaranteeType {
    /// Semantic consistency (same behavior)
    SemanticConsistency,
    /// Performance characteristics
    Performance,
    /// Memory safety
    MemorySafety,
    /// Deterministic output
    Determinism,
    /// ABI compatibility
    AbiCompatibility,
    /// Platform-specific optimization
    PlatformOptimization,
}

/// Platform-specific guarantee.
#[derive(Debug)]
pub struct PlatformGuarantee {
    /// Guarantee type
    pub guarantee_type: GuaranteeType,
    /// Description
    pub description: String,
    /// Validation status
    pub validated: bool,
    /// Additional details, sorted by key
    pub details: TextMap,
}

/// A guarantee as plain values.
pub struct GuaranteeView {
    pub guarantee_type: GuaranteeType,
    pub description: Seq<char>,
    pub validated: bool,
    pub details: Seq<(Seq<char>, Seq<char>)>,
}

impl View for PlatformGuarantee {
    type V = GuaranteeView;

    open spec fn view(&self) -> GuaranteeView {
        GuaranteeView {
            guarantee_type: self.guarantee_type,
            description: self.description@,
            validated: self.validated,
            details: self.details@,
        }
    }
}

/// The guarantees documented for a target: semantic consistency and
/// memory safety always, determinism when it is checked, and one that
/// depends on the backend (WASM optimizations, or LLVM ABI
/// compatibility); each is validated when compilation succeeded.
pub open spec fn guarantees_for(validate_determinism: bool, target: TargetView, success: bool) -> Seq<GuaranteeView> {
    let empty = Seq::<(Seq<char>, Seq<char>)>::empty();
    seq![
        GuaranteeView {
            guarantee_type: GuaranteeType::SemanticConsistency,
            description: "Code produces consistent behavior across platforms"@,
            validated: success,
            details: empty,
        },
        GuaranteeView {
            guarantee_type: GuaranteeType::MemorySafety,
            description: "Memory operations are safe and bounds-checked"@,
            validated: success,
            details: empty,
        },
    ] + (if validate_determinism {
        seq![
            GuaranteeView {
                guarantee_type: GuaranteeType::Determinism,
                description: "Builds are deterministic and reproducible"@,
                validated: success,
                details: empty,
            },
        ]
    } else {
        seq![]
    }) + (if target.backend == "wasm"@ {
        seq![
            GuaranteeView {
                guarantee_type: GuaranteeType::PlatformOptimization,
                description: "WebAssembly-specific optimizations applied"@,
                validated: success,
                details: upsert(empty, "optimization_type"@, "size_and_speed"@),
            },
        ]
    } else if target.backend == "llvm"@ {
        seq![
            GuaranteeView {
                guarantee_type: GuaranteeType::AbiCompatibility,
                description: "ABI compatibility with platform conventions"@,
                validated: success,
                details: upsert(empty, "abi_type"@, target.abi),
            },
        ]
    } else {
        seq![]
    })
}

fn guarantee(guarantee_type: GuaranteeType, description: &str, validated: bool) -> (r: PlatformGuarantee)
    ensures
        r@ == (GuaranteeView {
            guarantee_type,
            description: description@,
            validated,
            details: Seq::<(Seq<char>, Seq<char>)>::empty(),
        }),
{
    PlatformGuarantee { guarantee_type, description: owned(description), validated, details: TextMap::new() }
}

/// The guarantees documented for a target.
pub fn platform_guarantees(validate_determinism: bool, target: &TargetPlatform, compilation_success: bool) -> (r: Vec<
    PlatformGuarantee,
>)
    ensures
        r@.map_values(|g: PlatformGuarantee| g@) == guarantees_for(validate_determinism, target@, compilation_success),
{
    let mut guarantees: Vec<PlatformGuarantee> = Vec::new();
    guarantees.push(
        guarantee(
            GuaranteeType::SemanticConsistency,
            "Code produces consistent behavior across platforms",
            compilation_success,
        ),
    );
    guarantees.push(
        guarantee(GuaranteeType::MemorySafety, "Memory operations are safe and bounds-checked", compilation_success),
    );
    if validate_determinism {
        guarantees.push(
            guarantee(GuaranteeType::Determinism, "Builds are deterministic and reproducible", compilation_success),
        );
    }
    if crate::text::same_text(target.backend.as_str(), "wasm") {
        let mut g = guarantee(
            GuaranteeType::PlatformOptimization,
            "WebAssembly-specific optimizations applied",
            compilation_success,
        );
        g.details.insert(owned("optimization_type"), owned("size_and_speed"));
        guarantees.push(g);
    } else if crate::text::same_text(target.backend.as_str(), "llvm") {
        let mut g = guarantee(
            GuaranteeType::AbiCompatibility,
            "ABI compatibility with platform conventions",
            compilation_success,
        );
        g.details.insert(owned("abi_type"), target.abi.clone());
        guarantees.push(g);
    }
    assert(guarantees@.map_values(|g: PlatformGuarantee| g@) =~= guarantees_for(
        validate_determinism,
        target@,
        compilation_success,
    ));
    guarantees
}


/// Validation result for a single target.
#[derive(Debug)]
pub struct TargetValidationResult {
    /// Target platform
    pub target: TargetPlatform,
    /// Compilation success
    pub compilation_success: bool,
    /// Generated code hash (for determinism validation)
    pub code_hash: Option<String>,
    /// Compilation time (for performance validation)
    pub compilation_time_ms: Option<u64>,
    /// Generated code size
    pub code_size: Option<usize>,
    /// Validation errors
    pub errors: Vec<String>,
    /// Validation warnings
    pub warnings: Vec<String>,
    /// Platform-specific guarantees
    pub guarantees: Vec<PlatformGuarantee>,
}

/// A target's result as plain values, with the number of its errors and
/// warnings.
pub struct ResultView {
    pub target: TargetView,
    pub success: bool,
    pub code_hash: Option<Seq<char>>,
    pub compilation_time_ms: Option<u64>,
    pub code_size: Option<usize>,
    pub errors: Seq<Seq<char>>,
    pub warnings: Seq<Seq<char>>,
    pub guarantees: Seq<GuaranteeView>,
    pub error_count: nat,
    pub warning_count: nat,
}

impl View for TargetValidationResult {
    type V = ResultView;

    open spec fn view(&self) -> ResultView {
        ResultView {
            target: self.target@,
            success: self.compilation_success,
            code_hash: match self.code_hash {
                Some(h) => Some(h@),
                None => None,
            },
            compilation_time_ms: self.compilation_time_ms,
            code_size: self.code_size,
            errors: self.errors@.map_values(|e: String| e@),
            warnings: self.warnings@.map_values(|w: String| w@),
            guarantees: self.guarantees@.map_values(|g: PlatformGuarantee| g@),
            error_count: self.errors@.len(),
            warning_count: self.warnings@.len(),
        }
    }
}

/// The results as plain values.
pub open spec fn results_view(rs: Seq<TargetValidationResult>) -> Seq<ResultView> {
    rs.map_values(|r: TargetValidationResult| r@)
}

/// Adds a target to the group of its code hash, or starts a new group at
/// the end.
pub open spec fn add_to_group(groups: Seq<(Seq<char>, Seq<TargetView>)>, hash: Seq<char>, t: TargetView) -> Seq<
    (Seq<char>, Seq<TargetView>),
>
    decreases groups.len(),
{
    if groups.len() == 0 {
        seq![(hash, seq![t])]
    } else if groups[0].0 == hash {
        seq![(hash, groups[0].1.push(t))] + groups.drop_first()
    } else {
        seq![groups[0]] + add_to_group(groups.drop_first(), hash, t)
    }
}

/// The targets grouped by code hash, groups in the order in which their
/// hash first occurs and targets in order; results without a hash are
/// left out.
pub open spec fn hash_groups(rs: Seq<ResultView>) -> Seq<(Seq<char>, Seq<TargetView>)>
    decreases rs.len(),
{
    if rs.len() == 0 {
        seq![]
    } else {
        let g = hash_groups(rs.drop_last());
        match rs.last().code_hash {
            Some(h) => add_to_group(g, h, rs.last().target),
            None => g,
        }
    }
}

/// The messages on the targets that failed to compile, in order.
pub open spec fn failure_messages(rs: Seq<ResultView>) -> Seq<Seq<char>>
    decreases rs.len(),
{
    if rs.len() == 0 {
        seq![]
    } else {
        failure_messages(rs.drop_last()) + if rs.last().success {
            seq![]
        } else {
            seq!["Target "@ + rs.last().target.triple + " failed compilation"@]
        }
    }
}

/// Consistency validation results.
#[derive(Debug)]
pub struct ConsistencyResults {
    /// Semantic consistency across targets
    pub semantic_consistency: bool,
    /// Deterministic output consistency
    pub deterministic_consistency: bool,
    /// Targets by code hash, groups in the order their hash first occurs
    pub hash_consistency: Vec<(String, Vec<TargetPlatform>)>,
    /// Inconsistencies found
    pub inconsistencies: Vec<String>,
}

/// The groups of targets by hash, as plain values.
pub open spec fn groups_view(g: Seq<(String, Vec<TargetPlatform>)>) -> Seq<(Seq<char>, Seq<TargetView>)> {
    g.map_values(|e: (String, Vec<TargetPlatform>)| (e.0@, e.1@.map_values(|t: TargetPlatform| t@)))
}

proof fn lemma_add_to_group_at(
    groups: Seq<(Seq<char>, Seq<TargetView>)>,
    hash: Seq<char>,
    t: TargetView,
    i: int,
)
    requires
        0 <= i <= groups.len(),
        forall|j: int| 0 <= j < i ==> (#[trigger] groups[j]).0 != hash,
        i == groups.len() || groups[i].0 == hash,
    ensures
        add_to_group(groups, hash, t) == if i < groups.len() {
            groups.update(i, (hash, groups[i].1.push(t)))
        } else {
            groups.push((hash, seq![t]))
        },
    decreases i,
{
    if i == 0 {
        if groups.len() == 0 {
            assert(groups.push((hash, seq![t])) =~= seq![(hash, seq![t])]);
        } else {
            assert(groups.update(0, (hash, groups[0].1.push(t))) =~= seq![(hash, groups[0].1.push(t))]
                + groups.drop_first());
        }
    } else {
        let d = groups.drop_first();
        assert forall|j: int| 0 <= j < i - 1 implies (#[trigger] d[j]).0 != hash by {
            assert(d[j] == groups[j + 1]);
        }
        lemma_add_to_group_at(d, hash, t, i - 1);
        if i < groups.len() {
            assert(seq![groups[0]] + d.update(i - 1, (hash, d[i - 1].1.push(t))) =~= groups.update(
                i,
                (hash, groups[i].1.push(t)),
            ));
        } else {
            assert(seq![groups[0]] + d.push((hash, seq![t])) =~= groups.push((hash, seq![t])));
        }
    }
}

/// Analyze consistency across targets: the targets are grouped by code
/// hash when determinism is checked (more than one group is an
/// inconsistency), and every target that failed to compile is an
/// inconsistency too.
pub fn analyze_consistency(validate_determinism: bool, results: &Vec<TargetValidationResult>) -> (r: ConsistencyResults)
    ensures
        r.semantic_consistency == (failure_messages(results_view(results@)).len() == 0),
        r.deterministic_consistency == !(validate_determinism && hash_groups(results_view(results@)).len() > 1),
        groups_view(r.hash_consistency@) == if validate_determinism {
            hash_groups(results_view(results@))
        } else {
            Seq::empty()
        },
        r.inconsistencies@.map_values(|m: String| m@) == (if validate_determinism && hash_groups(
            results_view(results@),
        ).len() > 1 {
            seq!["Deterministic builds produced different outputs across targets"@]
        } else {
            Seq::<Seq<char>>::empty()
        }) + failure_messages(results_view(results@)),
{
    let ghost rs = results_view(results@);
    let mut groups: Vec<(String, Vec<TargetPlatform>)> = Vec::new();
    if validate_determinism {
        let mut i: usize = 0;
        while i < results.len()
            invariant
                rs == results_view(results@),
                i <= results@.len(),
                groups_view(groups@) == hash_groups(rs.take(i as int)),
            decreases results@.len() - i,
        {
            assert(rs.take(i + 1).drop_last() =~= rs.take(i as int));
            assert(rs.take(i + 1).last() == results@[i as int]@);
            match &results[i].code_hash {
                Some(h) => {
                    let ghost gv = groups_view(groups@);
                    let mut k: usize = 0;
                    while k < groups.len() && groups[k].0 != *h
                        invariant
                            gv == groups_view(groups@),
                            k <= groups@.len(),
                            forall|j: int| 0 <= j < k ==> (#[trigger] gv[j]).0 != h@,
                        decreases groups@.len() - k,
                    {
                        k = k + 1;
                    }
                    proof {
                        lemma_add_to_group_at(gv, h@, results@[i as int].target@, k as int);
                    }
                    let t = results[i].target.duplicate();
                    let ghost tv = results@[i as int].target@;
                    if k < groups.len() {
                        let (name, mut members) = groups.remove(k);
                        let ghost old_members = members@.map_values(|x: TargetPlatform| x@);
                        assert(name@ == h@);
                        assert(old_members == gv[k as int].1);
                        members.push(t);
                        assert(members@.map_values(|x: TargetPlatform| x@) =~= old_members.push(tv));
                        groups.insert(k, (name, members));
                        assert(groups_view(groups@) =~= gv.update(k as int, (h@, gv[k as int].1.push(tv))));
                    } else {
                        let members = vec![t];
                        assert(members@.map_values(|x: TargetPlatform| x@) =~= seq![tv]);
                        groups.push((h.clone(), members));
                        assert(groups_view(groups@) =~= gv.push((h@, seq![tv])));
                    }
                },
                None => {},
            }
            i = i + 1;
        }
        assert(rs.take(i as int) =~= rs);
    } else {
        assert(groups_view(groups@) =~= Seq::<(Seq<char>, Seq<TargetView>)>::empty());
    }
    let mut inconsistencies: Vec<String> = Vec::new();
    let deterministic_consistency = !(validate_determinism && groups.len() > 1);
    if !deterministic_consistency {
        inconsistencies.push(owned("Deterministic builds produced different outputs across targets"));
    }
    let ghost head = inconsistencies@.map_values(|m: String| m@);
    let mut semantic_consistency = true;
    let mut i: usize = 0;
    proof {
        assert(rs.take(0) =~= Seq::<ResultView>::empty());
        assert(head + failure_messages(rs.take(0)) =~= head);
    }
    while i < results.len()
        invariant
            rs == results_view(results@),
            i <= results@.len(),
            inconsistencies@.map_values(|m: String| m@) == head + failure_messages(rs.take(i as int)),
            semantic_consistency == (failure_messages(rs.take(i as int)).len() == 0),
        decreases results@.len() - i,
    {
        assert(rs.take(i + 1).drop_last() =~= rs.take(i as int));
        assert(rs.take(i + 1).last() == results@[i as int]@);
        assert(failure_messages(rs.take(i + 1)) == failure_messages(rs.take(i as int)) + if results@[i as int].compilation_success {
            Seq::<Seq<char>>::empty()
        } else {
            seq!["Target "@ + results@[i as int].target.triple@ + " failed compilation"@]
        });
        let ghost before = inconsistencies@.map_values(|m: String| m@);
        if !results[i].compilation_success {
            let mut m = owned("Target ");
            append(&mut m, results[i].target.triple.as_str());
            append(&mut m, " failed compilation");
            let ghost mv = m@;
            inconsistencies.push(m);
            semantic_consistency = false;
            assert(inconsistencies@.map_values(|m: String| m@) =~= before.push(mv));
            assert(head + failure_messages(rs.take(i + 1)) =~= before.push(mv));
        } else {
            assert(head + failure_messages(rs.take(i + 1)) =~= before);
        }
        i = i + 1;
    }
    assert(rs.take(i as int) =~= rs);
    ConsistencyResults { semantic_consistency, deterministic_consistency, hash_consistency: groups, inconsistencies }
}

/// Validation summary.
#[derive(Debug, Clone, Copy, PartialEq, Eq, Structural)]
pub struct ValidationSummary {
    /// Total targets validated
    pub total_targets: usize,
    /// Successful targets
    pub successful_targets: usize,
    /// Failed targets
    pub failed_targets: usize,
    /// Total errors
    pub total_errors: usize,
    /// Total warnings
    pub total_warnings: usize,
    /// Validation duration
    pub validation_duration_ms: u64,
}

/// The number of targets that compiled.
pub open spec fn success_count(rs: Seq<ResultView>) -> nat
    decreases rs.len(),
{
    if rs.len() == 0 {
        0
    } else {
        success_count(rs.drop_last()) + if rs.last().success {
            1nat
        } else {
            0nat
        }
    }
}

/// The number of errors over all targets.
pub open spec fn error_total(rs: Seq<ResultView>) -> nat
    decreases rs.len(),
{
    if rs.len() == 0 {
        0
    } else {
        error_total(rs.drop_last()) + rs.last().error_count
    }
}

/// The number of warnings over all targets.
pub open spec fn warning_total(rs: Seq<ResultView>) -> nat
    decreases rs.len(),
{
    if rs.len() == 0 {
        0
    } else {
        warning_total(rs.drop_last()) + rs.last().warning_count
    }
}

/// Generate the validation summary of the results.
pub fn generate_summary(results: &Vec<TargetValidationResult>, duration_ms: u64) -> (r: ValidationSummary)
    requires
        error_total(results_view(results@)) <= usize::MAX,
        warning_total(results_view(results@)) <= usize::MAX,
    ensures
        r.total_targets == results@.len(),
        r.successful_targets == success_count(results_view(results@)),
        r.failed_targets == results@.len() - success_count(results_view(results@)),
        r.total_errors == error_total(results_view(results@)),
        r.total_warnings == warning_total(results_view(results@)),
        r.validation_duration_ms == duration_ms,
{
    let ghost rs = results_view(results@);
    let mut successful: usize = 0;
    let mut errors: usize = 0;
    let mut warnings: usize = 0;
    let mut i: usize = 0;
    while i < results.len()
        invariant
            rs == results_view(results@),
            i <= results@.len(),
            error_total(rs) <= usize::MAX,
            warning_total(rs) <= usize::MAX,
            successful == success_count(rs.take(i as int)),
            successful <= i,
            errors == error_total(rs.take(i as int)),
            warnings == warning_total(rs.take(i as int)),
        decreases results@.len() - i,
    {
        assert(rs.take(i + 1).drop_last() =~= rs.take(i as int));
        assert(rs.take(i + 1).last() == results@[i as int]@);
        proof {
            lemma_totals_prefix(rs, i as int + 1);
        }
        if results[i].compilation_success {
            successful = successful + 1;
        }
        errors = errors + results[i].errors.len();
        warnings = warnings + results[i].warnings.len();
        i = i + 1;
    }
    assert(rs.take(i as int) =~= rs);
    ValidationSummary {
        total_targets: results.len(),
        successful_targets: successful,
        failed_targets: results.len() - successful,
        total_errors: errors,
        total_warnings: warnings,
        validation_duration_ms: duration_ms,
    }
}

proof fn lemma_totals_prefix(rs: Seq<ResultView>, n: int)
    requires
        0 <= n <= rs.len(),
    ensures
        error_total(rs.take(n)) <= error_total(rs),
        warning_total(rs.take(n)) <= warning_total(rs),
    decreases rs.len(),
{
    if n < rs.len() {
        assert(rs.drop_last().take(n) =~= rs.take(n));
        lemma_totals_prefix(rs.drop_last(), n);
    } else {
        assert(rs.take(n) =~= rs);
    }
}

/// Whether a WASM module is acceptable: at least 8 bytes long and starting
/// with the magic number `\0asm`.
pub open spec fn wasm_module_ok(bytes: Seq<u8>) -> bool {
    bytes.len() >= 8 && bytes[0] == 0x00 && bytes[1] == 0x61 && bytes[2] == 0x73 && bytes[3] == 0x6d
}

/// Whether a WASM module carries version 1.
pub open spec fn wasm_version_one(bytes: Seq<u8>) -> bool {
    bytes[4] == 0x01 && bytes[5] == 0x00 && bytes[6] == 0x00 && bytes[7] == 0x00
}

/// Check generated WASM bytes: an error when the module is too small or
/// its magic number is wrong, a warning when its version is not 1.
pub fn check_wasm_module(bytes: &[u8], errors: &mut Vec<String>, warnings: &mut Vec<String>) -> (ok: bool)
    ensures
        ok == wasm_module_ok(bytes@),
        final(errors)@.map_values(|m: String| m@) == old(errors)@.map_values(|m: String| m@) + if bytes@.len() < 8 {
            seq!["Generated WASM module too small"@]
        } else if !wasm_module_ok(bytes@) {
            seq!["Invalid WASM magic number"@]
        } else {
            Seq::<Seq<char>>::empty()
        },
        final(warnings)@.map_values(|m: String| m@) == old(warnings)@.map_values(|m: String| m@) + if wasm_module_ok(
            bytes@,
        ) && !wasm_version_one(bytes@) {
            seq!["Non-standard WASM version"@]
        } else {
            Seq::<Seq<char>>::empty()
        },
{
    if bytes.len() < 8 {
        errors.push(owned("Generated WASM module too small"));
        assert(errors@.map_values(|m: String| m@) =~= old(errors)@.map_values(|m: String| m@) + seq![
            "Generated WASM module too small"@,
        ]);
        assert(warnings@.map_values(|m: String| m@) =~= old(warnings)@.map_values(|m: String| m@) + Seq::<
            Seq<char>,
        >::empty());
        return false;
    }
    if !(bytes[0] == 0x00 && bytes[1] == 0x61 && bytes[2] == 0x73 && bytes[3] == 0x6d) {
        errors.push(owned("Invalid WASM magic number"));
        assert(errors@.map_values(|m: String| m@) =~= old(errors)@.map_values(|m: String| m@) + seq![
            "Invalid WASM magic number"@,
        ]);
        assert(warnings@.map_values(|m: String| m@) =~= old(warnings)@.map_values(|m: String| m@) + Seq::<
            Seq<char>,
        >::empty());
        return false;
    }
    if !(bytes[4] == 0x01 && bytes[5] == 0x00 && bytes[6] == 0x00 && bytes[7] == 0x00) {
        warnings.push(owned("Non-standard WASM version"));
        assert(warnings@.map_values(|m: String| m@) =~= old(warnings)@.map_values(|m: String| m@) + seq![
            "Non-standard WASM version"@,
        ]);
    } else {
        assert(warnings@.map_values(|m: String| m@) =~= old(warnings)@.map_values(|m: String| m@) + Seq::<
            Seq<char>,
        >::empty());
    }
    assert(errors@.map_values(|m: String| m@) =~= old(errors)@.map_values(|m: String| m@) + Seq::<
        Seq<char>,
    >::empty());
    true
}

/// Cross-target validation results: the result of each target in the
/// order validated, one per target.
#[derive(Debug)]
pub struct CrossTargetValidationResults {
    /// Results for each target
    pub target_results: Vec<TargetValidationResult>,
    /// Overall validation success
    pub overall_success: bool,
    /// Consistency validation results
    pub consistency_results: ConsistencyResults,
    /// Performance comparison results
    pub performance_results: Option<PerformanceResults>,
    /// Validation summary
    pub summary: ValidationSummary,
}

/// Performance comparison results, per target in the order validated.
#[derive(Debug)]
pub struct PerformanceResults {
    /// Compilation time of each target that reports one
    pub compilation_times: Vec<(TargetPlatform, u64)>,
    /// Code size of each target that reports one
    pub code_sizes: Vec<(TargetPlatform, usize)>,
    /// Performance variations
    pub variations: Vec<String>,
    /// Performance within tolerance
    pub within_tolerance: bool,
}

/// Overall success: consistent semantics and output, and every target
/// compiled.
pub fn overall_success(consistency: &ConsistencyResults, results: &Vec<TargetValidationResult>) -> (r: bool)
    ensures
        r == (consistency.semantic_consistency && consistency.deterministic_consistency && success_count(
            results_view(results@),
        ) == results@.len()),
{
    let ghost rs = results_view(results@);
    let mut all = true;
    let mut i: usize = 0;
    while i < results.len()
        invariant
            rs == results_view(results@),
            i <= results@.len(),
            all == (success_count(rs.take(i as int)) == i),
            success_count(rs.take(i as int)) <= i,
        decreases results@.len() - i,
    {
        assert(rs.take(i + 1).drop_last() =~= rs.take(i as int));
        assert(rs.take(i + 1).last() == results@[i as int]@);
        if !results[i].compilation_success {
            all = false;
        }
        i = i + 1;
    }
    assert(rs.take(i as int) =~= rs);
    consistency.semantic_consistency && consistency.deterministic_consistency && all
}

} // verus!
