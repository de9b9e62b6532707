//! Hardware abstraction: devices modelled as mathematical objects with
//! state, operations, safety constraints and invariants; the safety rules
//! that guard operations; and the record that keeps device behaviour
//! reproducible.

use vstd::prelude::*;
use crate::error::{ErrorView, OvieError, OvieResult};
use crate::text::{append, contains_text, debug_list, debug_list_text, has_substring, owned, push_decimal, decimal};
use crate::text_map::TextMap;
use crate::build_config::unix_time_now;
use crate::device_ops::{
    complete_operation, completed, executed, hash_after, layer_of, lemma_executed_keeps_ids, run_operation,
    state_hash_after, strings_fit, LayerView, OperationOutcome,
};
use crate::device_state::{value_debug, value_text};

verus! {

/// Classification of hardware device types.
#[derive(Debug, Clone, PartialEq, Eq)]
pub enum DeviceType {
    /// Memory management unit
    MemoryController,
    /// Input/output controller
    IoController,
    /// Timer and clock devices
    TimerDevice,
    /// Interrupt controller
    InterruptController,
    /// Network interface (offline-first compliant)
    NetworkInterface,
    /// Storage device
    StorageDevice,
    /// Display/graphics device
    DisplayDevice,
    /// Audio device
    AudioDevice,
    /// Sensor device
    SensorDevice,
    /// Custom device type
    Custom(String),
}

/// The display name of a device type.
pub open spec fn device_type_text(t: DeviceType) -> Seq<char> {
    match t {
        DeviceType::MemoryController => "Memory Controller"@,
        DeviceType::IoController => "I/O Controller"@,
        DeviceType::TimerDevice => "Timer Device"@,
        DeviceType::InterruptController => "Interrupt Controller"@,
        DeviceType::NetworkInterface => "Network Interface"@,
        DeviceType::StorageDevice => "Storage Device"@,
        DeviceType::DisplayDevice => "Display Device"@,
        DeviceType::AudioDevice => "Audio Device"@,
        DeviceType::SensorDevice => "Sensor Device"@,
        DeviceType::Custom(name) => "Custom Device: "@ + name@,
    }
}

impl DeviceType {
    /// The display name of this device type.
    pub fn display(&self) -> (r: String)
        ensures
            r@ == device_type_text(*self),
    {
        match self {
            DeviceType::MemoryController => owned("Memory Controller"),
            DeviceType::IoController => owned("I/O Controller"),
            DeviceType::TimerDevice => owned("Timer Device"),
            DeviceType::InterruptController => owned("Interrupt Controller"),
            DeviceType::NetworkInterface => owned("Network Interface"),
            DeviceType::StorageDevice => owned("Storage Device"),
            DeviceType::DisplayDevice => owned("Display Device"),
            DeviceType::AudioDevice => owned("Audio Device"),
            DeviceType::SensorDevice => owned("Sensor Device"),
            DeviceType::Custom(name) => {
                let mut out = owned("Custom Device: ");
                append(&mut out, name.as_str());
                out
            },
        }
    }
}

/// Typed values that can be stored in device state. A float is kept as
/// the bits of its IEEE 754 double.
#[derive(Debug, Clone)]
pub enum StateValue {
    /// Boolean flag
    Boolean(bool),
    /// Integer value with range constraints
    Integer { value: i64, min: i64, max: i64 },
    /// Floating-point value with precision constraints
    Float { value: u64, precision: u32 },
    /// String value with length constraints
    String { value: String, max_length: usize },
    /// Binary data with size constraints
    Binary { data: Vec<u8>, max_size: usize },
    /// Enumerated value from a fixed set
    Enum { value: String, valid_values: Vec<String> },
}

/// Record of a state transition for deterministic behaviour.
#[derive(Debug, Clone)]
pub struct StateTransition {
    /// Timestamp of the transition
    pub timestamp: u64,
    /// Operation that caused the transition
    pub operation: String,
    /// Previous state checksum
    pub previous_checksum: u64,
    /// New state checksum
    pub new_checksum: u64,
    /// Transition validity
    pub is_valid: bool,
}

/// Mathematical state of a device: its named properties (each name once),
/// its transitions, its validity and its checksum.
#[derive(Debug, Clone)]
pub struct DeviceState {
    pub properties: Vec<(String, StateValue)>,
    pub transition_history: Vec<StateTransition>,
    pub is_valid: bool,
    pub checksum: u64,
}

impl DeviceState {
    /// An empty, valid state.
    pub fn new() -> (r: Self)
        ensures
            r.properties@.len() == 0,
            r.transition_history@.len() == 0,
            r.is_valid,
            r.checksum == 0,
    {
        DeviceState { properties: Vec::new(), transition_history: Vec::new(), is_valid: true, checksum: 0 }
    }
}

/// Parameter for a device operation.
#[derive(Debug, Clone)]
pub struct OperationParameter {
    /// Parameter name
    pub name: String,
    /// Parameter type and constraints
    pub param_type: StateValue,
    /// Whether parameter is required
    pub required: bool,
    /// Default value if optional
    pub default_value: Option<StateValue>,
}

/// Safe operation that can be performed on a device.
#[derive(Debug, Clone)]
pub struct DeviceOperation {
    /// Operation name
    pub name: String,
    /// Operation description for human understanding
    pub description: String,
    /// Input parameters with their types and constraints
    pub parameters: Vec<OperationParameter>,
    /// Expected output type
    pub output_type: Option<StateValue>,
    /// Preconditions that must be met
    pub preconditions: Vec<String>,
    /// Postconditions that will be established
    pub postconditions: Vec<String>,
    /// Side effects on device state
    pub side_effects: Vec<String>,
    /// Deterministic behaviour guarantee
    pub is_deterministic: bool,
}

/// Severity levels for constraint violations.
#[derive(Debug, Clone, Copy, PartialEq, Eq, Structural)]
pub enum ConstraintSeverity {
    /// Must never be violated - causes compilation error
    Critical,
    /// Should not be violated - causes warning
    Warning,
    /// Performance hint - causes note
    Hint,
}

/// Safety constraint that must be maintained.
#[derive(Debug, Clone)]
pub struct SafetyConstraint {
    /// Constraint identifier
    pub id: String,
    /// Human-readable description
    pub description: String,
    /// Mathematical expression of the constraint
    pub expression: String,
    /// Severity if violated
    pub severity: ConstraintSeverity,
    /// Whether constraint can be checked at compile time
    pub compile_time_checkable: bool,
}

/// Mathematical invariant that must always hold.
#[derive(Debug, Clone)]
pub struct DeviceInvariant {
    /// Invariant identifier
    pub id: String,
    /// Human-readable description
    pub description: String,
    /// Mathematical expression of the invariant
    pub expression: String,
    /// Whether invariant can be verified statically
    pub statically_verifiable: bool,
    /// Proof or verification method
    pub verification_method: String,
}

/// Platform-specific implementation details (hidden from language level).
#[derive(Debug)]
pub struct PlatformImplementation {
    /// Platform identifier (e.g., "x86_64-linux", "aarch64-macos")
    pub platform_id: String,
    /// Implementation-specific configuration
    pub config: TextMap,
    /// Whether direct register access is available (should always be false)
    pub direct_register_access: bool,
    /// Safe abstraction layer functions
    pub abstraction_functions: Vec<String>,
}

/// The names of the safe abstraction functions.
pub open spec fn abstraction_function_names() -> Seq<Seq<char>> {
    seq!["safe_read"@, "safe_write"@, "validate_operation"@]
}

impl PlatformImplementation {
    /// The implementation of a platform: no configuration, no direct
    /// register access, and the safe read, write and validate functions.
    pub fn new(platform_id: &str) -> (r: Self)
        ensures
            r.platform_id@ == platform_id@,
            r.config@.len() == 0,
            !r.direct_register_access,
            r.abstraction_functions@.map_values(|f: String| f@) == abstraction_function_names(),
    {
        let r = PlatformImplementation {
            platform_id: owned(platform_id),
            config: TextMap::new(),
            direct_register_access: false,
            abstraction_functions: vec![owned("safe_read"), owned("safe_write"), owned("validate_operation")],
        };
        assert(r.abstraction_functions@.map_values(|f: String| f@) =~= abstraction_function_names());
        r
    }
}

/// Mathematical representation of a hardware device.
#[derive(Debug)]
pub struct DeviceModel {
    /// Unique device identifier
    pub device_id: String,
    /// Device type classification
    pub device_type: DeviceType,
    /// Current device state as mathematical properties
    pub state: DeviceState,
    /// Available operations on this device
    pub operations: Vec<DeviceOperation>,
    /// Safety constraints that must be maintained
    pub constraints: Vec<SafetyConstraint>,
    /// Mathematical invariants that must hold
    pub invariants: Vec<DeviceInvariant>,
    /// Platform-specific implementation details
    pub platform_impl: PlatformImplementation,
}

impl DeviceModel {
    /// A device with no operations, constraints or invariants, an empty
    /// state, on the given platform.
    pub fn new(device_id: String, device_type: DeviceType, platform_id: &str) -> (r: Self)
        ensures
            r.device_id == device_id,
            r.device_type == device_type,
            r.operations@.len() == 0,
            r.constraints@.len() == 0,
            r.invariants@.len() == 0,
            r.state.properties@.len() == 0,
            r.state.is_valid,
            r.platform_impl.platform_id@ == platform_id@,
            !r.platform_impl.direct_register_access,
    {
        DeviceModel {
            device_id,
            device_type,
            state: DeviceState::new(),
            operations: Vec::new(),
            constraints: Vec::new(),
            invariants: Vec::new(),
            platform_impl: PlatformImplementation::new(platform_id),
        }
    }

    /// Add an operation.
    pub fn add_operation(&mut self, operation: DeviceOperation)
        ensures
            final(self).operations@ == old(self).operations@.push(operation),
            final(self).constraints@ == old(self).constraints@,
            final(self).invariants@ == old(self).invariants@,
            final(self).device_id == old(self).device_id,
            final(self).device_type == old(self).device_type,
            final(self).platform_impl == old(self).platform_impl,
            final(self).state == old(self).state,
    {
        self.operations.push(operation);
    }

    /// Add a safety constraint.
    pub fn add_constraint(&mut self, constraint: SafetyConstraint)
        ensures
            final(self).constraints@ == old(self).constraints@.push(constraint),
            final(self).operations@ == old(self).operations@,
            final(self).invariants@ == old(self).invariants@,
            final(self).device_id == old(self).device_id,
            final(self).device_type == old(self).device_type,
            final(self).platform_impl == old(self).platform_impl,
            final(self).state == old(self).state,
    {
        self.constraints.push(constraint);
    }

    /// Add an invariant.
    pub fn add_invariant(&mut self, inv: DeviceInvariant)
        ensures
            final(self).invariants@ == old(self).invariants@.push(inv),
            final(self).operations@ == old(self).operations@,
            final(self).constraints@ == old(self).constraints@,
            final(self).device_id == old(self).device_id,
            final(self).device_type == old(self).device_type,
            final(self).platform_impl == old(self).platform_impl,
            final(self).state == old(self).state,
    {
        self.invariants.push(inv);
    }

    /// Check the state: every critical constraint and every statically
    /// verifiable invariant must hold; one whose expression holds `FAIL`
    /// does not.
    pub fn validate_state(&self) -> (r: OvieResult<()>)
        ensures
            r is Ok <==> (forall|i: int|
                0 <= i < self.constraints@.len() ==> !(self.constraints@[i].severity == ConstraintSeverity::Critical
                    && #[trigger] has_substring(self.constraints@[i].expression@, "FAIL"@))) && (forall|i: int|
                0 <= i < self.invariants@.len() ==> !(self.invariants@[i].statically_verifiable
                    && #[trigger] has_substring(self.invariants@[i].expression@, "FAIL"@))),
            r matches Err(e) ==> e@ is HardwareError,
    {
        let mut i: usize = 0;
        while i < self.constraints.len()
            invariant
                i <= self.constraints@.len(),
                forall|j: int|
                    0 <= j < i ==> !(self.constraints@[j].severity == ConstraintSeverity::Critical
                        && #[trigger] has_substring(self.constraints@[j].expression@, "FAIL"@)),
            decreases self.constraints@.len() - i,
        {
            let c = &self.constraints[i];
            if c.severity == ConstraintSeverity::Critical && contains_text(c.expression.as_str(), "FAIL") {
                let mut m = owned("Critical constraint violated: ");
                append(&mut m, c.description.as_str());
                return Err(OvieError::HardwareError(m));
            }
            i = i + 1;
        }
        let mut k: usize = 0;
        while k < self.invariants.len()
            invariant
                k <= self.invariants@.len(),
                forall|j: int|
                    0 <= j < self.constraints@.len() ==> !(self.constraints@[j].severity
                        == ConstraintSeverity::Critical && #[trigger] has_substring(
                        self.constraints@[j].expression@,
                        "FAIL"@,
                    )),
                forall|j: int|
                    0 <= j < k ==> !(self.invariants@[j].statically_verifiable && #[trigger] has_substring(
                        self.invariants@[j].expression@,
                        "FAIL"@,
                    )),
            decreases self.invariants@.len() - k,
        {
            let v = &self.invariants[k];
            if v.statically_verifiable && contains_text(v.expression.as_str(), "FAIL") {
                let mut m = owned("Invariant violated: ");
                append(&mut m, v.description.as_str());
                return Err(OvieError::HardwareError(m));
            }
            k = k + 1;
        }
        Ok(())
    }
}


/// Safety levels for hardware interaction.
#[derive(Debug, Clone, Copy, PartialEq, Eq, Structural)]
pub enum SafetyLevel {
    /// Maximum safety - no direct hardware access
    Maximum,
    /// High safety - limited controlled access
    High,
    /// Medium safety - more access with validation
    Medium,
    /// Low safety - minimal restrictions (not recommended)
    Low,
}

/// Platform-specific configuration.
#[derive(Debug)]
pub struct PlatformConfiguration {
    /// Target platform identifier
    pub platform_id: String,
    /// Architecture-specific settings
    pub arch_settings: TextMap,
    /// Available hardware features
    pub hardware_features: Vec<String>,
    /// Safety level configuration
    pub safety_level: SafetyLevel,
    /// Deterministic mode enabled
    pub deterministic_mode: bool,
}

/// Actions to take when a safety rule is triggered.
#[derive(Debug, Clone)]
pub enum SafetyAction {
    /// Block the operation
    Block,
    /// Issue a warning
    Warn,
    /// Log the operation
    Log,
    /// Request user confirmation
    Confirm,
    /// Apply automatic fix
    AutoFix(String),
}

/// Safety rule for hardware operations.
#[derive(Debug, Clone)]
pub struct SafetyRule {
    /// Rule identifier
    pub id: String,
    /// Rule description
    pub description: String,
    /// Conditions that trigger this rule
    pub conditions: Vec<String>,
    /// Actions to take when rule is triggered
    pub actions: Vec<SafetyAction>,
    /// Rule priority
    pub priority: u32,
}

/// Record of a safety violation.
#[derive(Debug, Clone)]
pub struct SafetyViolation {
    /// Timestamp of violation
    pub timestamp: u64,
    /// Rule that was violated
    pub rule_id: String,
    /// Operation that caused violation
    pub operation: String,
    /// Severity of violation
    pub severity: ConstraintSeverity,
    /// Action taken
    pub action_taken: SafetyAction,
}

/// Hardware safety analyzer.
#[derive(Debug, Clone)]
pub struct HardwareSafetyAnalyzer {
    /// Safety rules database
    pub safety_rules: Vec<SafetyRule>,
    /// Violation history for learning
    pub violation_history: Vec<SafetyViolation>,
}

/// Whether one condition of a rule applies to an operation: a condition
/// about registers to an operation on a register, a condition about
/// unsafe code to an unsafe operation.
pub open spec fn condition_applies(condition: Seq<char>, operation: Seq<char>) -> bool {
    (has_substring(condition, "register"@) && has_substring(operation, "register"@)) || (has_substring(
        condition,
        "unsafe"@,
    ) && has_substring(operation, "unsafe"@))
}

/// Whether a rule applies to an operation: one of its conditions does.
pub open spec fn rule_applies(rule: SafetyRule, operation: Seq<char>) -> bool {
    exists|i: int| 0 <= i < rule.conditions@.len() && #[trigger] condition_applies(rule.conditions@[i]@, operation)
}

/// Going through the rules from `i` on: the first rule that applies and
/// blocks (by its first action), and the descriptions of the rules that
/// apply and warn before it.
pub open spec fn safety_scan(rules: Seq<SafetyRule>, operation: Seq<char>, i: int) -> (Option<int>, Seq<Seq<char>>)
    decreases rules.len() - i,
{
    if i < 0 || i >= rules.len() {
        (None, seq![])
    } else if rule_applies(rules[i], operation) {
        match rules[i].actions@[0] {
            SafetyAction::Block => (Some(i), seq![]),
            SafetyAction::Warn => {
                let rest = safety_scan(rules, operation, i + 1);
                (rest.0, seq![rules[i].description@] + rest.1)
            },
            _ => safety_scan(rules, operation, i + 1),
        }
    } else {
        safety_scan(rules, operation, i + 1)
    }
}

/// The rules that apply to an operation have an action.
pub open spec fn applying_rules_have_actions(rules: Seq<SafetyRule>, operation: Seq<char>) -> bool {
    forall|i: int| 0 <= i < rules.len() && #[trigger] rule_applies(rules[i], operation) ==> rules[i].actions@.len() > 0
}

/// The rules an analyzer starts with: no direct register access (which
/// blocks), no unsafe operations (which blocks) and parameter validation
/// (which logs), with priorities 1000, 900 and 100.
pub open spec fn default_rules_ok(rules: Seq<SafetyRule>) -> bool {
    &&& rules.len() == 3
    &&& rules[0].id@ == "no_direct_register_access"@
    &&& rules[0].description@ == "Prevent direct register access"@
    &&& rules[0].conditions@.map_values(|c: String| c@) == seq!["operation.contains('register')"@]
    &&& rules[0].actions@.len() == 1 && rules[0].actions@[0] is Block
    &&& rules[0].priority == 1000
    &&& rules[1].id@ == "no_unsafe_operations"@
    &&& rules[1].description@ == "Prevent unsafe hardware operations"@
    &&& rules[1].conditions@.map_values(|c: String| c@) == seq!["operation.contains('unsafe')"@]
    &&& rules[1].actions@.len() == 1 && rules[1].actions@[0] is Block
    &&& rules[1].priority == 900
    &&& rules[2].id@ == "validate_parameters"@
    &&& rules[2].description@ == "Validate all operation parameters"@
    &&& rules[2].conditions@.map_values(|c: String| c@) == seq!["always"@]
    &&& rules[2].actions@.len() == 1 && rules[2].actions@[0] is Log
    &&& rules[2].priority == 100
}

/// Under the default rules an operation on a register is refused by the
/// register rule, any other unsafe operation is refused, and an operation
/// that is neither passes with no warning; every rule that applies has an
/// action.
pub proof fn law_default_rules_refuse(rules: Seq<SafetyRule>, operation: Seq<char>)
    requires
        default_rules_ok(rules),
    ensures
        has_substring(operation, "register"@) ==> safety_scan(rules, operation, 0).0 == Some(0int),
        has_substring(operation, "unsafe"@) ==> safety_scan(rules, operation, 0).0 is Some,
        !has_substring(operation, "register"@) && !has_substring(operation, "unsafe"@) ==> safety_scan(
            rules,
            operation,
            0,
        ).0 is None && safety_scan(rules, operation, 0).1 == Seq::<Seq<char>>::empty(),
        applying_rules_have_actions(rules, operation),
{
    reveal_strlit("operation.contains('register')");
    reveal_strlit("operation.contains('unsafe')");
    reveal_strlit("register");
    reveal_strlit("unsafe");
    let c0 = rules[0].conditions@[0]@;
    let c1 = rules[1].conditions@[0]@;
    let c2 = rules[2].conditions@[0]@;
    assert(rules[0].conditions@.map_values(|c: String| c@).len() == 1);
    assert(rules[0].conditions@.map_values(|c: String| c@)[0] == c0);
    assert(rules[1].conditions@.map_values(|c: String| c@).len() == 1);
    assert(rules[1].conditions@.map_values(|c: String| c@)[0] == c1);
    assert(rules[2].conditions@.map_values(|c: String| c@).len() == 1);
    assert(rules[2].conditions@.map_values(|c: String| c@)[0] == c2);
    assert(c0 == "operation.contains('register')"@);
    assert(c1 == "operation.contains('unsafe')"@);
    assert(c0.subrange(20, 20 + "register"@.len() as int) =~= "register"@);
    assert(has_substring(c0, "register"@));
    assert(c1.subrange(20, 20 + "unsafe"@.len() as int) =~= "unsafe"@);
    assert(has_substring(c1, "unsafe"@));
    if has_substring(operation, "register"@) {
        assert(condition_applies(c0, operation));
        assert(rule_applies(rules[0], operation));
    }
    if has_substring(operation, "unsafe"@) {
        assert(condition_applies(c1, operation));
        assert(rule_applies(rules[1], operation));
        if !rule_applies(rules[0], operation) {
            assert(safety_scan(rules, operation, 0) == safety_scan(rules, operation, 1));
        }
    }
    if !has_substring(operation, "register"@) && !has_substring(operation, "unsafe"@) {
        assert(!rule_applies(rules[0], operation));
        assert(!rule_applies(rules[1], operation));
        assert(!rule_applies(rules[2], operation));
        assert(safety_scan(rules, operation, 3) == (Option::<int>::None, Seq::<Seq<char>>::empty()));
        assert(safety_scan(rules, operation, 2) == safety_scan(rules, operation, 3));
        assert(safety_scan(rules, operation, 1) == safety_scan(rules, operation, 2));
        assert(safety_scan(rules, operation, 0) == safety_scan(rules, operation, 1));
    }
}

fn rule(id: &str, description: &str, condition: &str, action: SafetyAction, priority: u32) -> (r: SafetyRule)
    ensures
        r.id@ == id@,
        r.description@ == description@,
        r.conditions@.map_values(|c: String| c@) == seq![condition@],
        r.actions@ == seq![action],
        r.priority == priority,
{
    let r = SafetyRule {
        id: owned(id),
        description: owned(description),
        conditions: vec![owned(condition)],
        actions: vec![action],
        priority,
    };
    assert(r.conditions@.map_values(|c: String| c@) =~= seq![condition@]);
    assert(r.actions@ =~= seq![action]);
    r
}

/// Whether some condition of the rule applies to the operation.
fn rule_applies_exec(r: &SafetyRule, operation: &str) -> (b: bool)
    ensures
        b == rule_applies(*r, operation@),
{
    let mut i: usize = 0;
    while i < r.conditions.len()
        invariant
            i <= r.conditions@.len(),
            forall|j: int| 0 <= j < i ==> !#[trigger] condition_applies(r.conditions@[j]@, operation@),
        decreases r.conditions@.len() - i,
    {
        let c = r.conditions[i].as_str();
        assert(c@ == r.conditions@[i as int]@);
        if (contains_text(c, "register") && contains_text(operation, "register")) || (contains_text(
            c,
            "unsafe",
        ) && contains_text(operation, "unsafe")) {
            assert(condition_applies(r.conditions@[i as int]@, operation@));
            return true;
        }
        i = i + 1;
    }
    false
}

impl HardwareSafetyAnalyzer {
    /// A new analyzer with the default rules and no violations.
    pub fn new() -> (r: Self)
        ensures
            default_rules_ok(r.safety_rules@),
            r.violation_history@.len() == 0,
    {
        HardwareSafetyAnalyzer { safety_rules: HardwareSafetyAnalyzer::default_safety_rules(), violation_history: Vec::new() }
    }

    /// The default safety rules.
    pub fn default_safety_rules() -> (r: Vec<SafetyRule>)
        ensures
            default_rules_ok(r@),
    {
        vec![
            rule(
                "no_direct_register_access",
                "Prevent direct register access",
                "operation.contains('register')",
                SafetyAction::Block,
                1000,
            ),
            rule("no_unsafe_operations", "Prevent unsafe hardware operations", "operation.contains('unsafe')", SafetyAction::Block, 900),
            rule("validate_parameters", "Validate all operation parameters", "always", SafetyAction::Log, 100),
        ]
    }

    /// The recorded violations, oldest first.
    pub fn violation_history(&self) -> (r: &[SafetyViolation])
        ensures
            r@ == self.violation_history@,
    {
        self.violation_history.as_slice()
    }

    /// Check an operation against the rules, in order: the first rule that
    /// applies and blocks records a violation (stamped with the current
    /// time) and refuses the operation; the rules that apply and warn
    /// before it give the warnings returned.
    pub fn check_operation_safety(&mut self, operation: &str) -> (r: OvieResult<Vec<String>>)
        requires
            applying_rules_have_actions(old(self).safety_rules@, operation@),
        ensures
            final(self).safety_rules@ == old(self).safety_rules@,
            match safety_scan(old(self).safety_rules@, operation@, 0).0 {
                Some(b) => {
                    let rl = old(self).safety_rules@[b];
                    &&& r is Err
                    &&& r->Err_0@ == ErrorView::HardwareError(
                        "Operation '"@ + operation@ + "' blocked by safety rule: "@ + rl.description@,
                    )
                    &&& final(self).violation_history@.len() == old(self).violation_history@.len() + 1
                    &&& final(self).violation_history@.take(old(self).violation_history@.len() as int)
                        == old(self).violation_history@
                    &&& final(self).violation_history@.last().rule_id@ == rl.id@
                    &&& final(self).violation_history@.last().operation@ == operation@
                    &&& final(self).violation_history@.last().severity == ConstraintSeverity::Critical
                    &&& final(self).violation_history@.last().action_taken is Block
                },
                None => {
                    &&& r is Ok
                    &&& r->Ok_0@.map_values(|w: String| w@) == safety_scan(old(self).safety_rules@, operation@, 0).1
                    &&& final(self).violation_history@ == old(self).violation_history@
                },
            },
    {
        let ghost rules = self.safety_rules@;
        let mut warnings: Vec<String> = Vec::new();
        let mut i: usize = 0;
        while i < self.safety_rules.len()
            invariant
                rules == self.safety_rules@,
                rules == old(self).safety_rules@,
                i <= rules.len(),
                applying_rules_have_actions(rules, operation@),
                safety_scan(rules, operation@, 0).0 == safety_scan(rules, operation@, i as int).0,
                safety_scan(rules, operation@, 0).1 == warnings@.map_values(|w: String| w@) + safety_scan(
                    rules,
                    operation@,
                    i as int,
                ).1,
                self.violation_history@ == old(self).violation_history@,
            decreases rules.len() - i,
        {
            if rule_applies_exec(&self.safety_rules[i], operation) {
                match &self.safety_rules[i].actions[0] {
                    SafetyAction::Block => {
                        let violation = SafetyViolation {
                            timestamp: unix_time_now(),
                            rule_id: self.safety_rules[i].id.clone(),
                            operation: owned(operation),
                            severity: ConstraintSeverity::Critical,
                            action_taken: SafetyAction::Block,
                        };
                        let mut m = owned("Operation '");
                        append(&mut m, operation);
                        append(&mut m, "' blocked by safety rule: ");
                        append(&mut m, self.safety_rules[i].description.as_str());
                        self.violation_history.push(violation);
                        assert(self.violation_history@.take(old(self).violation_history@.len() as int)
                            =~= old(self).violation_history@);
                        return Err(OvieError::HardwareError(m));
                    },
                    SafetyAction::Warn => {
                        let ghost before = warnings@.map_values(|w: String| w@);
                        warnings.push(self.safety_rules[i].description.clone());
                        assert(warnings@.map_values(|w: String| w@) =~= before.push(rules[i as int].description@));
                    },
                    _ => {},
                }
            }
            i = i + 1;
        }
        assert(warnings@.map_values(|w: String| w@) + Seq::<Seq<char>>::empty() =~= warnings@.map_values(
            |w: String| w@,
        ));
        Ok(warnings)
    }
}

/// Record of a deterministic operation.
#[derive(Debug)]
pub struct DeterministicOperation {
    /// Operation identifier
    pub operation_id: String,
    /// Input parameters
    pub inputs: TextMap,
    /// Output result
    pub output: String,
    /// State hash before operation
    pub pre_state_hash: u64,
    /// State hash after operation
    pub post_state_hash: u64,
    /// Timestamp (deterministic)
    pub timestamp: u64,
}

/// Determinism enforcer for consistent behaviour.
#[derive(Debug)]
pub struct DeterminismEnforcer {
    /// Seed for deterministic operations
    pub deterministic_seed: u64,
    /// Operation history for reproducibility
    pub operation_history: Vec<DeterministicOperation>,
    /// Current state hash
    pub state_hash: u64,
}

/// The state hash after the recorded operations: that of the last one, or
/// the current hash when none was recorded.
pub open spec fn post_hash_of(history: Seq<DeterministicOperation>, state_hash: u64) -> u64 {
    if history.len() == 0 {
        state_hash
    } else {
        history.last().post_state_hash
    }
}

impl DeterminismEnforcer {
    /// A new enforcer with the fixed seed 12345, no history and state hash
    /// 0.
    pub fn new() -> (r: Self)
        ensures
            r.deterministic_seed == 12345,
            r.operation_history@.len() == 0,
            r.state_hash == 0,
    {
        DeterminismEnforcer { deterministic_seed: 12345, operation_history: Vec::new(), state_hash: 0 }
    }

    /// The state hash after the recorded operations.
    pub fn post_state_hash(&self) -> (r: u64)
        ensures
            r == post_hash_of(self.operation_history@, self.state_hash),
    {
        if self.operation_history.len() == 0 {
            self.state_hash
        } else {
            self.operation_history[self.operation_history.len() - 1].post_state_hash
        }
    }

    /// Record an operation on a device and the value it produced: the
    /// record is identified as `device::operation`, holds the value's debug
    /// text, is stamped with the seed, and chains the current state hash to
    /// the hash of that hash and the text, which becomes the new one.
    pub fn record_operation(&mut self, device_id: &str, operation_name: &str, result: &StateValue)
        ensures
            final(self).operation_history@.len() == old(self).operation_history@.len() + 1,
            final(self).operation_history@.take(old(self).operation_history@.len() as int)
                == old(self).operation_history@,
            final(self).operation_history@.last().operation_id@ == device_id@ + "::"@ + operation_name@,
            final(self).operation_history@.last().inputs@.len() == 0,
            final(self).operation_history@.last().output@ == value_text(result@),
            final(self).operation_history@.last().pre_state_hash == old(self).state_hash,
            final(self).operation_history@.last().post_state_hash
                == state_hash_after(old(self).state_hash, value_text(result@)),
            final(self).operation_history@.last().timestamp == old(self).deterministic_seed,
            final(self).state_hash == state_hash_after(old(self).state_hash, value_text(result@)),
            final(self).deterministic_seed == old(self).deterministic_seed,
    {
        let output = value_debug(result);
        let new_state_hash = hash_after(self.state_hash, output.as_str());
        let mut id = owned(device_id);
        append(&mut id, "::");
        append(&mut id, operation_name);
        let op = DeterministicOperation {
            operation_id: id,
            inputs: TextMap::new(),
            output,
            pre_state_hash: self.state_hash,
            post_state_hash: new_state_hash,
            timestamp: self.deterministic_seed,
        };
        self.operation_history.push(op);
        assert(self.operation_history@.take(old(self).operation_history@.len() as int) =~= old(self).operation_history@);
        self.state_hash = self.post_state_hash();
    }

    /// The recorded operations, oldest first.
    pub fn operation_history(&self) -> (r: &[DeterministicOperation])
        ensures
            r@ == self.operation_history@,
    {
        self.operation_history.as_slice()
    }
}


/// The decimal text of a signed integer.
pub open spec fn signed_decimal(i: int) -> Seq<char> {
    if i < 0 {
        "-"@ + decimal((-i) as nat)
    } else {
        decimal(i as nat)
    }
}

/// Appends the decimal text of a signed integer.
pub fn push_signed(out: &mut String, i: i64)
    ensures
        final(out)@ == old(out)@ + signed_decimal(i as int),
{
    if i < 0 {
        append(out, "-");
        let magnitude: u64 = ((-(i + 1)) as u64) + 1;
        push_decimal(out, magnitude);
    } else {
        push_decimal(out, i as u64);
    }
    assert(final(out)@ =~= old(out)@ + signed_decimal(i as int));
}

/// Whether `v` is one of `values`.
fn list_contains(values: &Vec<String>, v: &String) -> (r: bool)
    ensures
        r == values@.map_values(|s: String| s@).contains(v@),
{
    let ghost vs = values@.map_values(|s: String| s@);
    let mut i: usize = 0;
    while i < values.len()
        invariant
            vs == values@.map_values(|s: String| s@),
            i <= values@.len(),
            forall|j: int| 0 <= j < i ==> vs[j] != v@,
        decreases values@.len() - i,
    {
        if values[i] == *v {
            assert(vs[i as int] == v@);
            return true;
        }
        i = i + 1;
    }
    false
}

/// The error, if any, of a value against the type and limits it must
/// meet: an integer out of its range, a string longer (in bytes) than its
/// limit, binary data larger than its limit, an enumerated value outside
/// its set. Other pairs raise no error.
pub open spec fn value_error(value: StateValue, constraint: StateValue) -> Option<Seq<char>> {
    match (value, constraint) {
        (StateValue::Integer { value: v, .. }, StateValue::Integer { min, max, .. }) => if v < min || v > max {
            Some(
                "Integer value "@ + signed_decimal(v as int) + " out of range ["@ + signed_decimal(min as int) + ", "@
                    + signed_decimal(max as int) + "]"@,
            )
        } else {
            None
        },
        (StateValue::String { value: v, .. }, StateValue::String { max_length, .. }) => if vstd::utf8::encode_utf8(
            v@,
        ).len() > max_length {
            Some(
                "String length "@ + decimal(vstd::utf8::encode_utf8(v@).len()) + " exceeds maximum "@ + decimal(
                    max_length as nat,
                ),
            )
        } else {
            None
        },
        (StateValue::Binary { data, .. }, StateValue::Binary { max_size, .. }) => if data@.len() > max_size {
            Some("Binary data size "@ + decimal(data@.len()) + " exceeds maximum "@ + decimal(max_size as nat))
        } else {
            None
        },
        (StateValue::Enum { value: v, .. }, StateValue::Enum { valid_values, .. }) => if !valid_values@.map_values(
            |s: String| s@,
        ).contains(v@) {
            Some(
                "Enum value '"@ + v@ + "' not in valid set: "@ + debug_list_text(
                    valid_values@.map_values(|s: String| s@),
                ),
            )
        } else {
            None
        },
        _ => None,
    }
}

/// The first operation from `i` on that is not deterministic.
pub open spec fn first_nondeterministic(ops: Seq<DeviceOperation>, i: int) -> Option<int>
    decreases ops.len() - i,
{
    if i < 0 || i >= ops.len() {
        None
    } else if !ops[i].is_deterministic {
        Some(i)
    } else {
        first_nondeterministic(ops, i + 1)
    }
}

/// The first constraint from `i` on that is critical but cannot be
/// checked at compile time.
pub open spec fn first_unchecked_critical(cs: Seq<SafetyConstraint>, i: int) -> Option<int>
    decreases cs.len() - i,
{
    if i < 0 || i >= cs.len() {
        None
    } else if cs[i].severity == ConstraintSeverity::Critical && !cs[i].compile_time_checkable {
        Some(i)
    } else {
        first_unchecked_critical(cs, i + 1)
    }
}

/// Why a device model is refused, if it is: direct register access; then,
/// in deterministic mode, its first non-deterministic operation; then its
/// first critical constraint that cannot be checked at compile time.
pub open spec fn device_model_error(deterministic_mode: bool, d: DeviceModel) -> Option<Seq<char>> {
    if d.platform_impl.direct_register_access {
        Some("Direct register access is not allowed in device models"@)
    } else if deterministic_mode && first_nondeterministic(d.operations@, 0) is Some {
        Some(
            "Non-deterministic operation '"@ + d.operations@[first_nondeterministic(d.operations@, 0)->0].name@
                + "' not allowed in deterministic mode"@,
        )
    } else if first_unchecked_critical(d.constraints@, 0) is Some {
        Some(
            "Critical constraint '"@ + d.constraints@[first_unchecked_critical(d.constraints@, 0)->0].id@
                + "' must be compile-time checkable"@,
        )
    } else {
        None
    }
}

/// Factory of the standard device models.
#[derive(Debug)]
pub struct DeviceFactory;

fn texts_of(items: &[&str]) -> (r: Vec<String>)
    ensures
        r@.map_values(|s: String| s@) == items@.map_values(|s: &str| s@),
{
    let mut r: Vec<String> = Vec::new();
    let mut i: usize = 0;
    while i < items.len()
        invariant
            i <= items@.len(),
            r@.len() == i,
            forall|j: int| 0 <= j < i ==> (#[trigger] r@[j])@ == items@[j]@,
        decreases items@.len() - i,
    {
        r.push(owned(items[i]));
        i = i + 1;
    }
    assert(r@.map_values(|s: String| s@) =~= items@.map_values(|s: &str| s@));
    r
}

/// An operation with one required integer parameter in `[min, max]`.
fn integer_operation(
    name: &str,
    description: &str,
    parameter: &str,
    min: i64,
    max: i64,
    output_type: StateValue,
    precondition: &str,
    postcondition: &str,
    side_effect: &str,
    is_deterministic: bool,
) -> (r: DeviceOperation)
    ensures
        r.name@ == name@,
        r.description@ == description@,
        r.parameters@.len() == 1,
        r.parameters@[0].name@ == parameter@,
        r.parameters@[0].param_type matches StateValue::Integer { value: 0, min: mn, max: mx } && mn == min && mx == max,
        r.parameters@[0].required,
        r.parameters@[0].default_value is None,
        r.output_type == Some(output_type),
        r.preconditions@.map_values(|s: String| s@) == seq![precondition@],
        r.postconditions@.map_values(|s: String| s@) == seq![postcondition@],
        r.side_effects@.map_values(|s: String| s@) == seq![side_effect@],
        r.is_deterministic == is_deterministic,
{
    let r = DeviceOperation {
        name: owned(name),
        description: owned(description),
        parameters: vec![
            OperationParameter {
                name: owned(parameter),
                param_type: StateValue::Integer { value: 0, min, max },
                required: true,
                default_value: None,
            },
        ],
        output_type: Some(output_type),
        preconditions: vec![owned(precondition)],
        postconditions: vec![owned(postcondition)],
        side_effects: vec![owned(side_effect)],
        is_deterministic,
    };
    assert(r.preconditions@.map_values(|s: String| s@) =~= seq![precondition@]);
    assert(r.postconditions@.map_values(|s: String| s@) =~= seq![postcondition@]);
    assert(r.side_effects@.map_values(|s: String| s@) =~= seq![side_effect@]);
    r
}

impl DeviceFactory {
    /// The memory controller `memory_controller_0`: a deterministic
    /// `allocate_memory` of 1 byte to 1 GiB, a critical, compile-time
    /// checkable constraint against null pointers, and a memory
    /// conservation invariant checked at run time.
    pub fn create_memory_controller(platform_id: &str) -> (r: DeviceModel)
        ensures
            r.device_id@ == "memory_controller_0"@,
            r.device_type == DeviceType::MemoryController,
            r.operations@.len() == 1,
            r.operations@[0].name@ == "allocate_memory"@,
            r.operations@[0].parameters@[0].param_type matches StateValue::Integer { min: 1, max: 1073741824, .. },
            r.operations@[0].is_deterministic,
            r.constraints@.len() == 1,
            r.constraints@[0].id@ == "no_null_pointer_dereference"@,
            r.constraints@[0].severity == ConstraintSeverity::Critical,
            r.constraints@[0].compile_time_checkable,
            r.invariants@.len() == 1,
            r.invariants@[0].id@ == "memory_conservation"@,
            !r.invariants@[0].statically_verifiable,
            !r.platform_impl.direct_register_access,
            r.platform_impl.platform_id@ == platform_id@,
    {
        let mut device = DeviceModel::new(owned("memory_controller_0"), DeviceType::MemoryController, platform_id);
        device.add_operation(
            integer_operation(
                "allocate_memory",
                "Allocate a block of memory",
                "size",
                1,
                1073741824,
                StateValue::Integer { value: 0, min: 0, max: -1 },
                "size > 0",
                "allocated_address != 0",
                "updates memory allocation table",
                true,
            ),
        );
        device.add_constraint(
            SafetyConstraint {
                id: owned("no_null_pointer_dereference"),
                description: owned("Prevent null pointer dereference"),
                expression: owned("address != 0"),
                severity: ConstraintSeverity::Critical,
                compile_time_checkable: true,
            },
        );
        device.add_invariant(
            DeviceInvariant {
                id: owned("memory_conservation"),
                description: owned("Total allocated memory <= total available memory"),
                expression: owned("sum(allocated_blocks) <= total_memory"),
                statically_verifiable: false,
                verification_method: owned("runtime_check"),
            },
        );
        device
    }

    /// The timer `timer_0`: a deterministic `set_timer` of 1 ms to 24
    /// hours.
    pub fn create_timer_device(platform_id: &str) -> (r: DeviceModel)
        ensures
            r.device_id@ == "timer_0"@,
            r.device_type == DeviceType::TimerDevice,
            r.operations@.len() == 1,
            r.operations@[0].name@ == "set_timer"@,
            r.operations@[0].parameters@[0].param_type matches StateValue::Integer { min: 1, max: 86400000, .. },
            r.operations@[0].is_deterministic,
            r.constraints@.len() == 0,
            r.invariants@.len() == 0,
            !r.platform_impl.direct_register_access,
            r.platform_impl.platform_id@ == platform_id@,
    {
        let mut device = DeviceModel::new(owned("timer_0"), DeviceType::TimerDevice, platform_id);
        device.add_operation(
            integer_operation(
                "set_timer",
                "Set a timer for specified duration",
                "duration_ms",
                1,
                86400000,
                StateValue::Boolean(true),
                "duration_ms > 0",
                "timer_active == true",
                "starts timer countdown",
                true,
            ),
        );
        device
    }

    /// The I/O controller `io_controller_0`: a non-deterministic
    /// `read_data` from a port in `[0, 65535]`.
    pub fn create_io_controller(platform_id: &str) -> (r: DeviceModel)
        ensures
            r.device_id@ == "io_controller_0"@,
            r.device_type == DeviceType::IoController,
            r.operations@.len() == 1,
            r.operations@[0].name@ == "read_data"@,
            r.operations@[0].parameters@[0].param_type matches StateValue::Integer { min: 0, max: 65535, .. },
            !r.operations@[0].is_deterministic,
            r.constraints@.len() == 0,
            r.invariants@.len() == 0,
            !r.platform_impl.direct_register_access,
            r.platform_impl.platform_id@ == platform_id@,
    {
        let mut device = DeviceModel::new(owned("io_controller_0"), DeviceType::IoController, platform_id);
        device.add_operation(
            integer_operation(
                "read_data",
                "Read data from I/O port",
                "port",
                0,
                65535,
                StateValue::Binary { data: Vec::new(), max_size: 4096 },
                "port_is_valid(port)",
                "data_read == true",
                "updates port status",
                false,
            ),
        );
        device
    }
}

/// Platform abstraction layer: the registered devices (each id once), the
/// platform's configuration, the safety analyzer and the determinism
/// enforcer.
#[derive(Debug)]
pub struct PlatformAbstractionLayer {
    devices: Vec<DeviceModel>,
    platform_config: PlatformConfiguration,
    safety_analyzer: HardwareSafetyAnalyzer,
    determinism_enforcer: DeterminismEnforcer,
}

/// No two devices share an id.
pub open spec fn distinct_ids(ds: Seq<DeviceModel>) -> bool {
    forall|i: int, j: int| 0 <= i < j < ds.len() ==> (#[trigger] ds[i]).device_id@ != (#[trigger] ds[j]).device_id@
}

/// The device with id `id` among `ds`, if any.
pub open spec fn has_device(ds: Seq<DeviceModel>, id: Seq<char>) -> bool {
    exists|i: int| 0 <= i < ds.len() && (#[trigger] ds[i]).device_id@ == id
}

impl PlatformAbstractionLayer {
    #[verifier::type_invariant]
    spec fn unique_devices(self) -> bool {
        &&& distinct_ids(self.devices@)
        &&& forall|i: int|
            0 <= i < self.safety_analyzer.safety_rules@.len() ==> (#[trigger] self.safety_analyzer.safety_rules@[i]).actions@.len()
                > 0
    }

    /// The devices, the safety rules and violations, and the record of
    /// operations, as plain values.
    pub closed spec fn layer(&self) -> LayerView {
        layer_of(self.devices@, self.safety_analyzer, self.determinism_enforcer)
    }

    /// The registered devices, in order of registration.
    pub open spec fn devices(&self) -> Seq<DeviceModel> {
        self.layer().devices
    }

    /// Whether the platform runs in deterministic mode.
    pub closed spec fn deterministic(&self) -> bool {
        self.platform_config.deterministic_mode
    }

    /// A layer with no devices for a platform.
    pub fn new(platform_config: PlatformConfiguration) -> (r: Self)
        ensures
            r.devices().len() == 0,
            r.deterministic() == platform_config.deterministic_mode,
            default_rules_ok(r.layer().rules),
            r.layer().violations.len() == 0,
            r.layer().history.len() == 0,
            r.layer().state_hash == 0,
            r.layer().seed == 12345,
    {
        let safety_analyzer = HardwareSafetyAnalyzer::new();
        assert forall|i: int| 0 <= i < safety_analyzer.safety_rules@.len() implies (
        #[trigger] safety_analyzer.safety_rules@[i]).actions@.len() > 0 by {
            if i == 0 {
            } else if i == 1 {
            } else {
            }
        }
        PlatformAbstractionLayer {
            devices: Vec::new(),
            platform_config,
            safety_analyzer,
            determinism_enforcer: DeterminismEnforcer::new(),
        }
    }

    /// Register a device: it must be a valid model for the platform, and
    /// its id must not be registered yet.
    pub fn register_device(&mut self, device: DeviceModel) -> (r: OvieResult<()>)
        ensures
            final(self).deterministic() == old(self).deterministic(),
            final(self).layer() == (LayerView { devices: final(self).devices(), ..old(self).layer() }),
            device_model_error(old(self).deterministic(), device) matches Some(m) ==> r is Err && r->Err_0@
                == ErrorView::HardwareError(m) && final(self).devices() == old(self).devices(),
            device_model_error(old(self).deterministic(), device) is None && has_device(
                old(self).devices(),
                device.device_id@,
            ) ==> r is Err && r->Err_0@ == ErrorView::HardwareError(
                "Device '"@ + device.device_id@ + "' is already registered"@,
            ) && final(self).devices() == old(self).devices(),
            device_model_error(old(self).deterministic(), device) is None && !has_device(
                old(self).devices(),
                device.device_id@,
            ) ==> r is Ok && final(self).devices() == old(self).devices().push(device),
    {
        proof {
            use_type_invariant(&*self);
        }
        match self.validate_device_model(&device) {
            Err(e) => return Err(e),
            Ok(()) => {},
        }
        let mut i: usize = 0;
        while i < self.devices.len()
            invariant
                i <= self.devices@.len(),
                *self == *old(self),
                device_model_error(old(self).deterministic(), device) is None,
                forall|j: int| 0 <= j < i ==> (#[trigger] self.devices@[j]).device_id@ != device.device_id@,
            decreases self.devices@.len() - i,
        {
            if self.devices[i].device_id == device.device_id {
                let mut m = owned("Device '");
                append(&mut m, device.device_id.as_str());
                append(&mut m, "' is already registered");
                return Err(OvieError::HardwareError(m));
            }
            i = i + 1;
        }
        let placeholder = PlatformConfiguration {
            platform_id: String::new(),
            arch_settings: TextMap::new(),
            hardware_features: Vec::new(),
            safety_level: SafetyLevel::Maximum,
            deterministic_mode: false,
        };
        let mut taken = PlatformAbstractionLayer::new(placeholder);
        std::mem::swap(&mut taken, self);
        let PlatformAbstractionLayer { mut devices, platform_config, safety_analyzer, determinism_enforcer } = taken;
        let ghost before = devices@;
        proof {
            assert(!has_device(before, device.device_id@));
            law_registered_device_is_found(before, device);
        }
        devices.push(device);
        *self = PlatformAbstractionLayer { devices, platform_config, safety_analyzer, determinism_enforcer };
        Ok(())
    }

    /// The device with the given id, if registered.
    pub fn get_device(&self, device_id: &str) -> (r: Option<&DeviceModel>)
        ensures
            match r {
                Some(d) => self.devices().contains(*d) && d.device_id@ == device_id@,
                None => !has_device(self.devices(), device_id@),
            },
    {
        let mut i: usize = 0;
        while i < self.devices.len()
            invariant
                i <= self.devices@.len(),
                forall|j: int| 0 <= j < i ==> (#[trigger] self.devices@[j]).device_id@ != device_id@,
            decreases self.devices@.len() - i,
        {
            if crate::text::same_text(self.devices[i].device_id.as_str(), device_id) {
                assert(self.devices@[i as int] == self.devices@[i as int]);
                return Some(&self.devices[i]);
            }
            i = i + 1;
        }
        None
    }

    /// The platform configuration.
    pub fn platform_config(&self) -> (r: &PlatformConfiguration)
        ensures
            r.deterministic_mode == self.deterministic(),
    {
        &self.platform_config
    }

    /// The safety analyzer.
    pub fn safety_analyzer(&self) -> (r: &HardwareSafetyAnalyzer)
        ensures
            r.safety_rules@ == self.layer().rules,
            r.violation_history@ == self.layer().violations,
    {
        &self.safety_analyzer
    }

    /// The determinism enforcer.
    pub fn determinism_enforcer(&self) -> (r: &DeterminismEnforcer)
        ensures
            r.operation_history@ == self.layer().history,
            r.state_hash == self.layer().state_hash,
            r.deterministic_seed == self.layer().seed,
    {
        &self.determinism_enforcer
    }
}

/// Check a value against the type and limits it must meet.
pub fn check_value(value: &StateValue, constraint: &StateValue) -> (r: OvieResult<()>)
    requires
        value matches StateValue::String { value: v, .. } ==> vstd::utf8::encode_utf8(v@).len() <= usize::MAX,
    ensures
        match value_error(*value, *constraint) {
            Some(m) => r is Err && r->Err_0@ == ErrorView::HardwareError(m),
            None => r is Ok,
        },
{
    match (value, constraint) {
        (StateValue::Integer { value: v, .. }, StateValue::Integer { min, max, .. }) => {
            if *v < *min || *v > *max {
                let mut m = owned("Integer value ");
                push_signed(&mut m, *v);
                append(&mut m, " out of range [");
                push_signed(&mut m, *min);
                append(&mut m, ", ");
                push_signed(&mut m, *max);
                append(&mut m, "]");
                return Err(OvieError::HardwareError(m));
            }
        },
        (StateValue::String { value: v, .. }, StateValue::String { max_length, .. }) => {
            let n = v.as_str().len();
            if n > *max_length {
                let mut m = owned("String length ");
                push_decimal(&mut m, n as u64);
                append(&mut m, " exceeds maximum ");
                push_decimal(&mut m, *max_length as u64);
                return Err(OvieError::HardwareError(m));
            }
        },
        (StateValue::Binary { data, .. }, StateValue::Binary { max_size, .. }) => {
            if data.len() > *max_size {
                let mut m = owned("Binary data size ");
                push_decimal(&mut m, data.len() as u64);
                append(&mut m, " exceeds maximum ");
                push_decimal(&mut m, *max_size as u64);
                return Err(OvieError::HardwareError(m));
            }
        },
        (StateValue::Enum { value: v, .. }, StateValue::Enum { valid_values, .. }) => {
            if !list_contains(valid_values, v) {
                let mut m = owned("Enum value '");
                append(&mut m, v.as_str());
                append(&mut m, "' not in valid set: ");
                let listed = debug_list(valid_values);
                append(&mut m, listed.as_str());
                return Err(OvieError::HardwareError(m));
            }
        },
        _ => {},
    }
    Ok(())
}

impl PlatformAbstractionLayer {
    /// Validate a value against the type and limits it must meet.
    pub fn validate_state_value_constraints(&self, value: &StateValue, constraint: &StateValue) -> (r: OvieResult<()>)
        requires
            value matches StateValue::String { value: v, .. } ==> vstd::utf8::encode_utf8(v@).len() <= usize::MAX,
        ensures
            match value_error(*value, *constraint) {
                Some(m) => r is Err && r->Err_0@ == ErrorView::HardwareError(m),
                None => r is Ok,
            },
    {
        check_value(value, constraint)
    }

    /// Validate a device model for this platform (in deterministic mode, no
    /// operation may be non-deterministic).
    pub fn validate_device_model(&self, device: &DeviceModel) -> (r: OvieResult<()>)
        ensures
            match device_model_error(self.deterministic(), *device) {
                Some(m) => r is Err && r->Err_0@ == ErrorView::HardwareError(m),
                None => r is Ok,
            },
    {
        if device.platform_impl.direct_register_access {
            return Err(OvieError::HardwareError(owned("Direct register access is not allowed in device models")));
        }
        let deterministic_mode = self.platform_config.deterministic_mode;
        if deterministic_mode {
            let mut i: usize = 0;
            while i < device.operations.len()
                invariant
                    i <= device.operations@.len(),
                    !device.platform_impl.direct_register_access,
                    deterministic_mode,
                    deterministic_mode == self.deterministic(),
                    first_nondeterministic(device.operations@, 0) == first_nondeterministic(device.operations@, i as int),
                decreases device.operations@.len() - i,
            {
                if !device.operations[i].is_deterministic {
                    let mut m = owned("Non-deterministic operation '");
                    append(&mut m, device.operations[i].name.as_str());
                    append(&mut m, "' not allowed in deterministic mode");
                    return Err(OvieError::HardwareError(m));
                }
                i = i + 1;
            }
        }
        let mut k: usize = 0;
        while k < device.constraints.len()
            invariant
                k <= device.constraints@.len(),
                !device.platform_impl.direct_register_access,
                deterministic_mode == self.deterministic(),
                deterministic_mode ==> first_nondeterministic(device.operations@, 0) is None,
                first_unchecked_critical(device.constraints@, 0) == first_unchecked_critical(device.constraints@, k as int),
            decreases device.constraints@.len() - k,
        {
            let c = &device.constraints[k];
            if c.severity == ConstraintSeverity::Critical && !c.compile_time_checkable {
                let mut m = owned("Critical constraint '");
                append(&mut m, c.id.as_str());
                append(&mut m, "' must be compile-time checkable");
                return Err(OvieError::HardwareError(m));
            }
            k = k + 1;
        }
        Ok(())
    }
}

impl PlatformAbstractionLayer {
    fn take_parts(&mut self) -> (r: (Vec<DeviceModel>, PlatformConfiguration, HardwareSafetyAnalyzer, DeterminismEnforcer))
        ensures
            r.0@ == old(self).devices(),
            distinct_ids(r.0@),
            r.1.deterministic_mode == old(self).deterministic(),
            forall|i: int| 0 <= i < r.2.safety_rules@.len() ==> (#[trigger] r.2.safety_rules@[i]).actions@.len() > 0,
            old(self).layer() == layer_of(r.0@, r.2, r.3),
    {
        proof {
            use_type_invariant(&*self);
        }
        let placeholder = PlatformConfiguration {
            platform_id: String::new(),
            arch_settings: TextMap::new(),
            hardware_features: Vec::new(),
            safety_level: SafetyLevel::Maximum,
            deterministic_mode: false,
        };
        let mut taken = PlatformAbstractionLayer::new(placeholder);
        std::mem::swap(&mut taken, self);
        let PlatformAbstractionLayer { devices, platform_config, safety_analyzer, determinism_enforcer } = taken;
        (devices, platform_config, safety_analyzer, determinism_enforcer)
    }

    /// Run an operation of a registered device with the given parameters
    /// (see `executed`). Arithmetic hands back its operands, and is
    /// completed with `complete_operation` once its floating-point result
    /// is known.
    pub fn execute_operation(&mut self, device_id: &str, operation_name: &str, parameters: &Vec<(String, StateValue)>) -> (r: OvieResult<OperationOutcome>)
        requires
            strings_fit(parameters@),
        ensures
            executed(old(self).layer(), final(self).layer(), device_id@, operation_name@, parameters@, r),
            final(self).deterministic() == old(self).deterministic(),
    {
        let (mut devices, platform_config, mut safety_analyzer, mut determinism_enforcer) = self.take_parts();
        let ghost before = layer_of(devices@, safety_analyzer, determinism_enforcer);
        let r = run_operation(&mut devices, &mut safety_analyzer, &mut determinism_enforcer, device_id, operation_name, parameters);
        proof {
            lemma_executed_keeps_ids(
                before,
                layer_of(devices@, safety_analyzer, determinism_enforcer),
                device_id@,
                operation_name@,
                parameters@,
                r,
            );
            assert forall|i: int, j: int| 0 <= i < j < devices@.len() implies (#[trigger] devices@[i]).device_id@ != (
            #[trigger] devices@[j]).device_id@ by {
                assert(devices@[i].device_id == before.devices[i].device_id);
                assert(devices@[j].device_id == before.devices[j].device_id);
            }
        }
        *self = PlatformAbstractionLayer { devices, platform_config, safety_analyzer, determinism_enforcer };
        r
    }

    /// Complete an arithmetic operation with its floating-point result,
    /// given by its bit pattern (see `completed`).
    pub fn complete_operation(&mut self, device_id: &str, operation_name: &str, result_bits: u64) -> (r: OvieResult<StateValue>)
        ensures
            completed(old(self).layer(), final(self).layer(), device_id@, operation_name@, result_bits, r),
            final(self).deterministic() == old(self).deterministic(),
    {
        let (devices, platform_config, safety_analyzer, mut determinism_enforcer) = self.take_parts();
        let r = complete_operation(&devices, &safety_analyzer, &mut determinism_enforcer, device_id, operation_name, result_bits);
        *self = PlatformAbstractionLayer { devices, platform_config, safety_analyzer, determinism_enforcer };
        r
    }
}

/// A registered device is found by its id, and registering the same id
/// again is refused.
pub proof fn law_registered_device_is_found(before: Seq<DeviceModel>, device: DeviceModel)
    requires
        distinct_ids(before),
        !has_device(before, device.device_id@),
    ensures
        has_device(before.push(device), device.device_id@),
        distinct_ids(before.push(device)),
{
    let after = before.push(device);
    assert(after[before.len() as int] == device);
    assert forall|i: int, j: int| 0 <= i < j < after.len() implies (#[trigger] after[i]).device_id@ != (
    #[trigger] after[j]).device_id@ by {
        if j < before.len() {
            assert(after[i] == before[i] && after[j] == before[j]);
        } else {
            assert(after[i] == before[i]);
        }
    }
}

} // verus!
