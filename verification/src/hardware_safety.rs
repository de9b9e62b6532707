//! Hardware behaviour analysis: the description of hardware
//! configurations, the rules and strategies of the analyses, and the
//! check that two configurations can be expected to behave alike.

use vstd::prelude::*;
use crate::text::{append, owned, same_text};
use crate::error::{ErrorView, OvieError, OvieResult};
use crate::interpreter::{find_last, lemma_find_last_push, lemma_find_last_range};

verus! {

/// Single observation of hardware behaviour.
#[derive(Debug, Clone)]
pub struct BehaviorObservation {
    /// Timestamp of observation
    pub timestamp: u64,
    /// Hardware configuration ID
    pub config_id: String,
    /// Operation that was performed
    pub operation: String,
    /// Input parameters, as (name, value) pairs
    pub inputs: Vec<(String, String)>,
    /// Observed output
    pub output: String,
    /// Execution time in nanoseconds
    pub execution_time_ns: u64,
    /// Any anomalies detected
    pub anomalies: Vec<String>,
}

/// Cache type enumeration.
#[derive(Debug, Clone, Copy, PartialEq, Eq, Structural)]
pub enum CacheType {
    Instruction,
    Data,
    Unified,
}

/// Endianness specification.
#[derive(Debug, Clone, Copy, PartialEq, Eq, Structural)]
pub enum Endianness {
    Little,
    Big,
    BiEndian,
}

/// Cache level specification.
#[derive(Debug, Clone, Copy, PartialEq, Eq, Structural)]
pub struct CacheLevel {
    /// Cache level (L1, L2, L3, etc.)
    pub level: u32,
    /// Cache size in bytes
    pub size_bytes: u64,
    /// Cache line size in bytes
    pub line_size_bytes: u32,
    /// Associativity
    pub associativity: u32,
    /// Cache type (instruction, data, unified)
    pub cache_type: CacheType,
}

/// CPU architecture specification.
#[derive(Debug, Clone)]
pub struct CpuArchitecture {
    /// Architecture name (e.g., "x86_64", "aarch64")
    pub name: String,
    /// Instruction set extensions
    pub extensions: Vec<String>,
    /// Cache hierarchy
    pub cache_levels: Vec<CacheLevel>,
    /// Execution units
    pub execution_units: Vec<String>,
    /// Endianness
    pub endianness: Endianness,
}

/// NUMA node specification.
#[derive(Debug, Clone)]
pub struct NumaNode {
    /// Node identifier
    pub node_id: u32,
    /// Memory size in bytes
    pub memory_bytes: u64,
    /// CPU cores in this node
    pub cpu_cores: Vec<u32>,
}

/// Memory configuration specification.
#[derive(Debug, Clone)]
pub struct MemoryConfiguration {
    /// Total available memory in bytes
    pub total_memory_bytes: u64,
    /// Memory page size in bytes
    pub page_size_bytes: u32,
    /// Memory alignment requirements
    pub alignment_bytes: u32,
    /// Memory protection features
    pub protection_features: Vec<String>,
    /// NUMA topology (if applicable)
    pub numa_nodes: Vec<NumaNode>,
}

/// Performance profile for hardware.
#[derive(Debug, Clone)]
pub struct PerformanceProfile {
    /// CPU frequency in Hz
    pub cpu_frequency_hz: u64,
    /// Memory bandwidth in bytes per second
    pub memory_bandwidth_bps: u64,
    /// Typical instruction latencies, by instruction
    pub instruction_latencies: Vec<(String, u32)>,
    /// Cache miss penalties, by cache level
    pub cache_miss_penalties: Vec<(u32, u32)>,
    /// I/O throughput characteristics, by device
    pub io_throughput: Vec<(String, u64)>,
}

/// Criterion for consistency checking.
#[derive(Debug, Clone)]
pub struct ConsistencyCriterion {
    /// Criterion name
    pub name: String,
    /// Property to check (e.g., "output_value", "execution_time")
    pub property: String,
    /// Expected relationship (e.g., "equal", "within_tolerance")
    pub relationship: String,
    /// Reference value or pattern
    pub reference: String,
}

/// Severity levels for consistency violations.
#[derive(Debug, Clone, Copy, PartialEq, Eq, Structural)]
pub enum ViolationSeverity {
    /// Critical violation that breaks determinism guarantees
    Critical,
    /// Major violation that significantly impacts consistency
    Major,
    /// Minor violation within acceptable tolerances
    Minor,
    /// Informational - potential issue to monitor
    Info,
}

/// Consistency violation detected during analysis.
#[derive(Debug, Clone)]
pub struct ConsistencyViolation {
    /// Violation identifier
    pub violation_id: String,
    /// Rule that was violated
    pub violated_rule: String,
    /// Hardware configurations involved
    pub involved_configs: Vec<String>,
    /// Operation that caused the violation
    pub operation: String,
    /// Description of the violation
    pub description: String,
    /// Severity of the violation
    pub severity: ViolationSeverity,
    /// Suggested remediation
    pub remediation: String,
}

/// Rule for static analysis of hardware models.
#[derive(Debug, Clone)]
pub struct StaticAnalysisRule {
    /// Rule identifier
    pub rule_id: String,
    /// Rule description
    pub description: String,
    /// Pattern to match in hardware models
    pub pattern: String,
    /// Expected properties
    pub expected_properties: Vec<String>,
    /// Severity if rule is violated
    pub severity: ViolationSeverity,
    /// Automated fix suggestion
    pub fix_suggestion: Option<String>,
}

/// Strategy for generating test inputs.
#[derive(Debug, Clone)]
pub enum InputGenerationStrategy {
    /// Random input generation
    Random { seed: u64 },
    /// Exhaustive testing of input space
    Exhaustive { max_combinations: u32 },
    /// Boundary value testing
    Boundary,
    /// Custom input patterns
    Custom { patterns: Vec<String> },
}

/// Configuration for dynamic analysis.
#[derive(Debug, Clone)]
pub struct DynamicAnalysisConfig {
    /// Number of test iterations
    pub test_iterations: u32,
    /// Test input generation strategy
    pub input_generation: InputGenerationStrategy,
    /// Properties to monitor during execution
    pub monitored_properties: Vec<String>,
    /// Timeout for individual tests
    pub test_timeout_ms: u32,
    /// Whether to collect performance metrics
    pub collect_performance_metrics: bool,
}

/// The texts of a list of strings.
pub open spec fn texts_view(v: Seq<String>) -> Seq<Seq<char>> {
    v.map_values(|s: String| s@)
}

fn text_list(items: &[&str]) -> (r: Vec<String>)
    ensures
        texts_view(r@) == items@.map_values(|s: &str| s@),
{
    let mut r: Vec<String> = Vec::new();
    let mut i: usize = 0;
    while i < items.len()
        invariant
            i <= items@.len(),
            r@.len() == i,
            forall|j: int| 0 <= j < i ==> (#[trigger] r@[j])@ == items@[j]@,
        decreases items@.len() - i,
    {
        r.push(owned(items[i]));
        i = i + 1;
    }
    assert(texts_view(r@) =~= items@.map_values(|s: &str| s@));
    r
}

impl DynamicAnalysisConfig {
    /// The default dynamic analysis: 100 iterations of random inputs from
    /// seed 12345, watching output consistency, execution time and memory
    /// usage, with a 1000 ms timeout and performance metrics.
    pub fn default() -> (r: Self)
        ensures
            r.test_iterations == 100,
            r.input_generation matches InputGenerationStrategy::Random { seed: 12345 },
            texts_view(r.monitored_properties@) == seq!["output_consistency"@, "execution_time"@, "memory_usage"@],
            r.test_timeout_ms == 1000,
            r.collect_performance_metrics,
    {
        let items = ["output_consistency", "execution_time", "memory_usage"];
        let props = text_list(&items);
        assert(items@.map_values(|s: &str| s@) =~= seq!["output_consistency"@, "execution_time"@, "memory_usage"@]);
        DynamicAnalysisConfig {
            test_iterations: 100,
            input_generation: InputGenerationStrategy::Random { seed: 12345 },
            monitored_properties: props,
            test_timeout_ms: 1000,
            collect_performance_metrics: true,
        }
    }
}

/// Method for verification.
#[derive(Debug, Clone, Copy, PartialEq, Eq, Structural)]
pub enum VerificationMethod {
    /// Formal mathematical proof
    FormalProof,
    /// Model checking
    ModelChecking,
    /// Property-based testing
    PropertyTesting,
    /// Symbolic execution
    SymbolicExecution,
    /// Abstract interpretation
    AbstractInterpretation,
}

/// Strategy for model verification.
#[derive(Debug, Clone)]
pub struct VerificationStrategy {
    /// Strategy identifier
    pub strategy_id: String,
    /// Strategy description
    pub description: String,
    /// Verification method
    pub method: VerificationMethod,
    /// Properties to verify
    pub properties: Vec<String>,
    /// Expected verification time
    pub expected_time_ms: u32,
}

/// Whether a hardware feature is critical for deterministic behaviour.
pub open spec fn is_critical_feature(feature: Seq<char>) -> bool {
    feature == "floating_point_determinism"@ || feature == "memory_ordering_guarantees"@ || feature
        == "cache_coherency"@ || feature == "interrupt_handling"@
}

/// Whether a hardware feature is critical for deterministic behaviour.
pub fn critical_feature(feature: &str) -> (r: bool)
    ensures
        r == is_critical_feature(feature@),
{
    same_text(feature, "floating_point_determinism") || same_text(feature, "memory_ordering_guarantees")
        || same_text(feature, "cache_coherency") || same_text(feature, "interrupt_handling")
}

/// Whether a critical feature is offered by one list and not the other.
pub open spec fn critical_difference(a: Seq<Seq<char>>, b: Seq<Seq<char>>) -> bool {
    (exists|i: int| 0 <= i < a.len() && !b.contains(a[i]) && #[trigger] is_critical_feature(a[i])) || (exists|j: int|
        0 <= j < b.len() && !a.contains(b[j]) && #[trigger] is_critical_feature(b[j]))
}

/// Whether `v` is one of `items`.
fn text_in(items: &Vec<String>, v: &String) -> (r: bool)
    ensures
        r == texts_view(items@).contains(v@),
{
    let ghost vs = texts_view(items@);
    let mut i: usize = 0;
    while i < items.len()
        invariant
            vs == texts_view(items@),
            i <= items@.len(),
            forall|j: int| 0 <= j < i ==> vs[j] != v@,
        decreases items@.len() - i,
    {
        if items[i] == *v {
            assert(vs[i as int] == v@);
            return true;
        }
        i = i + 1;
    }
    false
}

/// Whether a critical feature is in `a` and not in `b`.
fn critical_missing(a: &Vec<String>, b: &Vec<String>) -> (r: bool)
    ensures
        r == exists|i: int|
            0 <= i < a@.len() && !texts_view(b@).contains(texts_view(a@)[i]) && #[trigger] is_critical_feature(
                texts_view(a@)[i],
            ),
{
    let ghost av = texts_view(a@);
    let ghost bv = texts_view(b@);
    let mut i: usize = 0;
    while i < a.len()
        invariant
            av == texts_view(a@),
            bv == texts_view(b@),
            i <= a@.len(),
            forall|j: int| 0 <= j < i ==> !(!bv.contains(av[j]) && #[trigger] is_critical_feature(av[j])),
        decreases a@.len() - i,
    {
        assert(av[i as int] == a@[i as int]@);
        if !text_in(b, &a[i]) && critical_feature(a[i].as_str()) {
            return true;
        }
        i = i + 1;
    }
    false
}

/// Whether two hardware configurations can be expected to behave alike:
/// the same platform, the same CPU architecture, and no critical feature
/// that one offers and the other does not.
pub fn configurations_compatible(
    base_platform: &str,
    base_arch: &str,
    base_features: &Vec<String>,
    platform: &str,
    arch: &str,
    features: &Vec<String>,
) -> (r: bool)
    ensures
        r == (base_platform@ == platform@ && base_arch@ == arch@ && !critical_difference(
            texts_view(base_features@),
            texts_view(features@),
        )),
{
    if !same_text(base_platform, platform) || !same_text(base_arch, arch) {
        return false;
    }
    !(critical_missing(base_features, features) || critical_missing(features, base_features))
}

/// A hardware configuration as the consistency check reads it: its
/// identifier, platform, CPU architecture name and features.
#[derive(Debug)]
pub struct HardwareConfiguration {
    /// Configuration identifier
    pub config_id: String,
    /// Platform identifier (e.g., "x86_64-linux")
    pub platform: String,
    /// CPU architecture name (e.g., "x86_64", "aarch64")
    pub cpu_arch: String,
    /// Available hardware features
    pub features: Vec<String>,
}

/// The identifiers of a list of configurations.
pub open spec fn config_ids(cs: Seq<HardwareConfiguration>) -> Seq<Seq<char>> {
    cs.map_values(|c: HardwareConfiguration| c.config_id@)
}

/// The configuration registered under `id`, if any.
pub open spec fn config_of(cs: Seq<HardwareConfiguration>, id: Seq<char>) -> Option<HardwareConfiguration> {
    let i = find_last(config_ids(cs), id);
    if i >= 0 {
        Some(cs[i])
    } else {
        None
    }
}

/// The first of `ids` from `k` on that no configuration is registered
/// under.
pub open spec fn first_unknown(cs: Seq<HardwareConfiguration>, ids: Seq<Seq<char>>, k: int) -> Option<int>
    decreases ids.len() - k,
{
    if k < 0 || k >= ids.len() {
        None
    } else if config_of(cs, ids[k]) is None {
        Some(k)
    } else {
        first_unknown(cs, ids, k + 1)
    }
}

/// Whether two configurations can be expected to behave alike.
pub open spec fn configs_compatible(a: HardwareConfiguration, b: HardwareConfiguration) -> bool {
    a.platform@ == b.platform@ && a.cpu_arch@ == b.cpu_arch@ && !critical_difference(
        texts_view(a.features@),
        texts_view(b.features@),
    )
}

/// Hardware behaviour analyzer: the database of hardware configurations,
/// by identifier.
#[derive(Debug)]
pub struct HardwareBehaviorAnalyzer {
    hardware_configs: Vec<HardwareConfiguration>,
}

impl HardwareBehaviorAnalyzer {
    /// The registered configurations; the last one of an identifier counts.
    pub closed spec fn configs(&self) -> Seq<HardwareConfiguration> {
        self.hardware_configs@
    }

    /// An analyzer with no configurations.
    pub fn new() -> (r: Self)
        ensures
            r.configs().len() == 0,
    {
        HardwareBehaviorAnalyzer { hardware_configs: Vec::new() }
    }

    /// The position of the configuration registered under `id`.
    fn find_config(&self, id: &str) -> (r: Option<usize>)
        ensures
            match r {
                Some(i) => i < self.configs().len() && i as int == find_last(config_ids(self.configs()), id@),
                None => find_last(config_ids(self.configs()), id@) == -1,
            },
    {
        let ghost keys = config_ids(self.hardware_configs@);
        let mut i: usize = self.hardware_configs.len();
        assert(keys.take(i as int) =~= keys);
        while i > 0
            invariant
                i <= self.hardware_configs@.len(),
                keys == config_ids(self.hardware_configs@),
                find_last(keys, id@) == find_last(keys.take(i as int), id@),
            decreases i,
        {
            assert(keys.take(i as int).drop_last() =~= keys.take(i - 1));
            if same_text(self.hardware_configs[i - 1].config_id.as_str(), id) {
                return Some(i - 1);
            }
            i = i - 1;
        }
        assert(keys.take(0) =~= Seq::<Seq<char>>::empty());
        None
    }

    /// Add a hardware configuration, replacing any of the same identifier.
    pub fn add_hardware_config(&mut self, config: HardwareConfiguration)
        ensures
            config_of(final(self).configs(), config.config_id@) == Some(config),
            forall|id: Seq<char>| id != config.config_id@ ==> #[trigger] config_of(final(self).configs(), id)
                == config_of(old(self).configs(), id),
    {
        let ghost c = config;
        let ghost keys = config_ids(self.hardware_configs@);
        match self.find_config(config.config_id.as_str()) {
            Some(i) => {
                proof { lemma_find_last_range(keys, c.config_id@); }
                self.hardware_configs.set(i, config);
                assert(config_ids(self.hardware_configs@) =~= keys);
                assert forall|id: Seq<char>| id != c.config_id@ implies #[trigger] config_of(self.configs(), id)
                    == config_of(old(self).configs(), id) by {
                    lemma_find_last_range(keys, id);
                }
            },
            None => {
                self.hardware_configs.push(config);
                assert(config_ids(self.hardware_configs@) =~= keys.push(c.config_id@));
                proof { lemma_find_last_push(keys, c.config_id@, c.config_id@); }
                assert forall|id: Seq<char>| id != c.config_id@ implies #[trigger] config_of(self.configs(), id)
                    == config_of(old(self).configs(), id) by {
                    lemma_find_last_range(keys, id);
                    lemma_find_last_push(keys, c.config_id@, id);
                }
            },
        }
    }

    /// Whether the given configurations can be expected to behave alike:
    /// an identifier with no configuration is an error (the first such);
    /// fewer than two are consistent; otherwise each must be compatible
    /// with the first.
    pub fn validate_hardware_consistency(&self, configs: &Vec<String>) -> (r: OvieResult<bool>)
        ensures
            match first_unknown(self.configs(), texts_view(configs@), 0) {
                Some(k) => r is Err && r->Err_0@ == ErrorView::HardwareError(
                    "Hardware configuration '"@ + configs@[k]@ + "' not found"@,
                ),
                None => r is Ok && r->Ok_0 == (configs@.len() < 2 || forall|j: int|
                    1 <= j < configs@.len() ==> #[trigger] configs_compatible(
                        config_of(self.configs(), configs@[0]@)->0,
                        config_of(self.configs(), configs@[j]@)->0,
                    )),
            },
    {
        let ghost ids = texts_view(configs@);
        let mut k: usize = 0;
        while k < configs.len()
            invariant
                ids == texts_view(configs@),
                k <= configs@.len(),
                first_unknown(self.configs(), ids, 0) == first_unknown(self.configs(), ids, k as int),
                forall|m: int| 0 <= m < k ==> #[trigger] config_of(self.configs(), configs@[m]@) is Some,
            decreases configs@.len() - k,
        {
            assert(ids[k as int] == configs@[k as int]@);
            if self.find_config(configs[k].as_str()).is_none() {
                let mut m = owned("Hardware configuration '");
                append(&mut m, configs[k].as_str());
                append(&mut m, "' not found");
                return Err(OvieError::HardwareError(m));
            }
            k = k + 1;
        }
        assert(first_unknown(self.configs(), ids, k as int) is None);
        if configs.len() < 2 {
            return Ok(true);
        }
        let b = match self.find_config(configs[0].as_str()) {
            Some(b) => b,
            None => {
                return Ok(true);
            },
        };
        let ghost base = self.configs()[b as int];
        assert(config_of(self.configs(), configs@[0]@) == Some(base));
        let mut j: usize = 1;
        while j < configs.len()
            invariant
                1 <= j <= configs@.len(),
                first_unknown(self.configs(), texts_view(configs@), 0) is None,
                b < self.configs().len(),
                base == self.configs()[b as int],
                config_of(self.configs(), configs@[0]@) == Some(base),
                forall|m: int| 0 <= m < configs@.len() ==> #[trigger] config_of(self.configs(), configs@[m]@) is Some,
                forall|m: int| 1 <= m < j ==> #[trigger] configs_compatible(
                    base,
                    config_of(self.configs(), configs@[m]@)->0,
                ),
            decreases configs@.len() - j,
        {
            let c = match self.find_config(configs[j].as_str()) {
                Some(c) => c,
                None => {
                    return Ok(false);
                },
            };
            let base_c = &self.hardware_configs[b];
            let other = &self.hardware_configs[c];
            if !configurations_compatible(
                base_c.platform.as_str(),
                base_c.cpu_arch.as_str(),
                &base_c.features,
                other.platform.as_str(),
                other.cpu_arch.as_str(),
                &other.features,
            ) {
                assert(!configs_compatible(
                    config_of(self.configs(), configs@[0]@)->0,
                    config_of(self.configs(), configs@[j as int]@)->0,
                ));
                return Ok(false);
            }
            j = j + 1;
        }
        Ok(true)
    }
}

} // verus!
