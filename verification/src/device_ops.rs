//! Running an operation on a registered device: finding the device and
//! the operation, checking the call's parameters and the operation's
//! conditions and safety rules, the operation's effect on the device's
//! state, and the record kept of it.

use vstd::prelude::*;
use std::collections::hash_map::DefaultHasher;
use std::hash::Hasher;
use vstd::std_specs::hash::DefaultHasherAdditionalSpecFns;
use vstd::utf8::encode_utf8;
use crate::device_state::{
    find_property, hash_text, lemma_property_index_from, lemma_with_property_view, property_index, properties_checksum, text_writes, value_text, with_property,
    ValueView,
};
use crate::error::{ErrorView, OvieError, OvieResult};
use crate::hardware::{
    law_default_rules_refuse,
    check_value, DeviceState, value_error, ConstraintSeverity, DeterminismEnforcer, DeterministicOperation, DeviceModel,
    DeviceOperation, HardwareSafetyAnalyzer, OperationParameter, SafetyAction, SafetyRule, SafetyViolation, StateValue,
    applying_rules_have_actions, condition_applies, default_rules_ok, rule_applies, safety_scan,
};
use crate::text::{append, contains_text, decimal, has_substring, owned, push_decimal, same_text};

verus! {

/// The arithmetic a device operation can name.
#[derive(Debug, Clone, Copy, PartialEq, Eq, Structural)]
pub enum ArithmeticOp {
    Add,
    Subtract,
    Multiply,
    Divide,
}

/// An operand of device arithmetic: an integer, or a float by its bit
/// pattern.
#[derive(Debug, Clone, Copy, PartialEq, Eq, Structural)]
pub enum Operand {
    Integer(i64),
    Float(u64),
}

/// What running an operation gives: its result, or the arithmetic on two
/// operands whose floating-point result completes it.
#[derive(Debug)]
pub enum OperationOutcome {
    Completed(StateValue),
    Arithmetic { op: ArithmeticOp, left: Operand, right: Operand },
}

/// The arithmetic an operation's name names, if any.
pub open spec fn arithmetic_named(name: Seq<char>) -> Option<ArithmeticOp> {
    if name == "add"@ {
        Some(ArithmeticOp::Add)
    } else if name == "subtract"@ {
        Some(ArithmeticOp::Subtract)
    } else if name == "multiply"@ {
        Some(ArithmeticOp::Multiply)
    } else if name == "divide"@ {
        Some(ArithmeticOp::Divide)
    } else {
        None
    }
}

/// The operand a value gives, if it is a number.
pub open spec fn operand_of(v: ValueView) -> Option<Operand> {
    match v {
        ValueView::Integer { value, .. } => Some(Operand::Integer(value)),
        ValueView::Float { value, .. } => Some(Operand::Float(value)),
        _ => None,
    }
}

/// Whether an operand is zero (a float zero of either sign).
pub open spec fn is_zero(o: Operand) -> bool {
    match o {
        Operand::Integer(v) => v == 0,
        Operand::Float(bits) => bits == 0 || bits == 0x8000_0000_0000_0000u64,
    }
}

/// The operands of an arithmetic operation: exactly two parameters, both
/// numbers, the divisor not zero.
pub open spec fn arithmetic_step(op: ArithmeticOp, ps: Seq<(String, StateValue)>) -> Result<(Operand, Operand), Seq<char>> {
    if ps.len() != 2 {
        Err("Mathematical operation requires 2 parameters, got "@ + decimal(ps.len()))
    } else {
        match (operand_of(ps[0].1@), operand_of(ps[1].1@)) {
            (Some(a), Some(b)) => if op == ArithmeticOp::Divide && is_zero(b) {
                Err("Division by zero"@)
            } else {
                Ok((a, b))
            },
            _ => Err("Invalid parameter type for mathematical operation"@),
        }
    }
}

/// The first operation named `name` from position `i` on.
pub open spec fn operation_index_from(ops: Seq<DeviceOperation>, name: Seq<char>, i: int) -> Option<int>
    decreases ops.len() - i,
{
    if i < 0 || i >= ops.len() {
        None
    } else if ops[i].name@ == name {
        Some(i)
    } else {
        operation_index_from(ops, name, i + 1)
    }
}

/// The first device with id `id` from position `i` on.
pub open spec fn device_index_from(ds: Seq<DeviceModel>, id: Seq<char>, i: int) -> Option<int>
    decreases ds.len() - i,
{
    if i < 0 || i >= ds.len() {
        None
    } else if ds[i].device_id@ == id {
        Some(i)
    } else {
        device_index_from(ds, id, i + 1)
    }
}

/// The first declared parameter named `name` from position `i` on.
pub open spec fn declared_index_from(decl: Seq<OperationParameter>, name: Seq<char>, i: int) -> Option<int>
    decreases decl.len() - i,
{
    if i < 0 || i >= decl.len() {
        None
    } else if decl[i].name@ == name {
        Some(i)
    } else {
        declared_index_from(decl, name, i + 1)
    }
}

/// The first declared parameter from position `i` on that is required
/// and not supplied.
pub open spec fn missing_required_from(decl: Seq<OperationParameter>, ps: Seq<(String, StateValue)>, i: int) -> Option<int>
    decreases decl.len() - i,
{
    if i < 0 || i >= decl.len() {
        None
    } else if decl[i].required && property_index(ps, decl[i].name@) is None {
        Some(i)
    } else {
        missing_required_from(decl, ps, i + 1)
    }
}

/// The first error among the supplied parameters from position `i` on,
/// each checked against the first declared parameter of its name.
pub open spec fn supplied_error_from(decl: Seq<OperationParameter>, ps: Seq<(String, StateValue)>, i: int) -> Option<Seq<char>>
    decreases ps.len() - i,
{
    if i < 0 || i >= ps.len() {
        None
    } else {
        match declared_index_from(decl, ps[i].0@, 0) {
            Some(d) => match value_error(ps[i].1, decl[d].param_type) {
                Some(m) => Some(m),
                None => supplied_error_from(decl, ps, i + 1),
            },
            None => supplied_error_from(decl, ps, i + 1),
        }
    }
}

/// Why the parameters of a call do not fit an operation, if they do not:
/// a required parameter is missing, or a supplied one breaks its limits.
pub open spec fn parameters_error(op: DeviceOperation, ps: Seq<(String, StateValue)>) -> Option<Seq<char>> {
    match missing_required_from(op.parameters@, ps, 0) {
        Some(j) => Some(
            "Required parameter '"@ + op.parameters@[j].name@ + "' missing for operation '"@ + op.name@ + "'"@,
        ),
        None => supplied_error_from(op.parameters@, ps, 0),
    }
}

/// The first condition from position `i` on that names a failure.
pub open spec fn failing_condition_from(cs: Seq<String>, i: int) -> Option<int>
    decreases cs.len() - i,
{
    if i < 0 || i >= cs.len() {
        None
    } else if has_substring(cs[i]@, "FAIL"@) {
        Some(i)
    } else {
        failing_condition_from(cs, i + 1)
    }
}

/// The string a call supplies for a parameter, if it supplies a string.
pub open spec fn string_param(ps: Seq<(String, StateValue)>, name: Seq<char>) -> Option<String> {
    match property_index(ps, name) {
        Some(k) => match ps[k].1 {
            StateValue::String { value, .. } => Some(value),
            _ => None,
        },
        None => None,
    }
}

/// The effect of an operation (other than arithmetic) on a device's
/// properties: the new properties when they change, and the result.
/// `read_property` gives the value of the property the call names;
/// `write_property` sets it to the call's `value`; `get_state` counts
/// the properties; any other operation succeeds.
pub open spec fn device_effect(props: Seq<(String, StateValue)>, op_name: Seq<char>, ps: Seq<(String, StateValue)>) -> Result<
    (Option<Seq<(String, StateValue)>>, ValueView),
    Seq<char>,
> {
    if op_name == "read_property"@ {
        match string_param(ps, "property"@) {
            Some(pn) => match property_index(props, pn@) {
                Some(k) => Ok((None, props[k].1@)),
                None => Err("Property '"@ + pn@ + "' not found"@),
            },
            None => Err("Invalid property name parameter"@),
        }
    } else if op_name == "write_property"@ {
        match (string_param(ps, "property"@), property_index(ps, "value"@)) {
            (Some(pn), Some(kv)) => Ok((Some(with_property(props, pn, ps[kv].1)), ValueView::Boolean(true))),
            _ => Err("Invalid parameters for write_property"@),
        }
    } else if op_name == "get_state"@ {
        Ok((None, ValueView::String { value: "Device state: "@ + decimal(props.len()) + " properties"@, max_length: 1000 }))
    } else {
        Ok((None, ValueView::Boolean(true)))
    }
}

/// The properties as plain values.
pub open spec fn props_view(ps: Seq<(String, StateValue)>) -> Seq<(Seq<char>, ValueView)> {
    ps.map_values(|p: (String, StateValue)| (p.0@, p.1@))
}

/// The eight bytes of a number, least significant first.
pub open spec fn le_bytes(v: u64) -> Seq<u8> {
    seq![
        (v & 0xff) as u8,
        ((v >> 8u64) & 0xff) as u8,
        ((v >> 16u64) & 0xff) as u8,
        ((v >> 24u64) & 0xff) as u8,
        ((v >> 32u64) & 0xff) as u8,
        ((v >> 40u64) & 0xff) as u8,
        ((v >> 48u64) & 0xff) as u8,
        ((v >> 56u64) & 0xff) as u8,
    ]
}

/// The state hash after an operation with the given output: the standard
/// hasher fed with the previous hash, then the output's text.
pub open spec fn state_hash_after(previous: u64, output: Seq<char>) -> u64 {
    DefaultHasher::spec_finish(seq![le_bytes(previous)] + text_writes(output))
}

/// The parts of a platform layer that running an operation reads and
/// changes, as plain values.
pub struct LayerView {
    pub devices: Seq<DeviceModel>,
    pub rules: Seq<SafetyRule>,
    pub violations: Seq<SafetyViolation>,
    pub history: Seq<DeterministicOperation>,
    pub state_hash: u64,
    pub seed: u64,
}

/// The layer view of the parts.
pub open spec fn layer_of(devices: Seq<DeviceModel>, analyzer: HardwareSafetyAnalyzer, enforcer: DeterminismEnforcer) -> LayerView {
    LayerView {
        devices,
        rules: analyzer.safety_rules@,
        violations: analyzer.violation_history@,
        history: enforcer.operation_history@,
        state_hash: enforcer.state_hash,
        seed: enforcer.deterministic_seed,
    }
}

/// Whether a result is the hardware error `m`.
pub open spec fn fails_with<T>(r: OvieResult<T>, m: Seq<char>) -> bool {
    r is Err && r->Err_0@ == ErrorView::HardwareError(m)
}

/// The layer after a rule blocked an operation: a violation of that rule
/// is recorded, and nothing else changes.
pub open spec fn blocked(before: LayerView, after: LayerView, op_name: Seq<char>, rule: SafetyRule) -> bool {
    &&& after.devices == before.devices
    &&& after.rules == before.rules
    &&& after.history == before.history
    &&& after.state_hash == before.state_hash
    &&& after.seed == before.seed
    &&& after.violations.len() == before.violations.len() + 1
    &&& after.violations.take(before.violations.len() as int) == before.violations
    &&& after.violations.last().rule_id@ == rule.id@
    &&& after.violations.last().operation@ == op_name
    &&& after.violations.last().severity == ConstraintSeverity::Critical
    &&& after.violations.last().action_taken is Block
}

/// The layer after an operation had its effect on device `di`: when the
/// properties change, that device holds the new ones and its checksum
/// covers them; nothing else changes.
pub open spec fn effect_applied(before: LayerView, after: LayerView, di: int, new_props: Option<Seq<(String, StateValue)>>) -> bool {
    &&& after.rules == before.rules
    &&& after.violations == before.violations
    &&& after.seed == before.seed
    &&& match new_props {
        None => after.devices == before.devices,
        Some(np) => {
            let (a, b) = (after.devices[di], before.devices[di]);
            &&& after.devices.len() == before.devices.len()
            &&& forall|j: int| 0 <= j < before.devices.len() && j != di ==> after.devices[j] == before.devices[j]
            &&& a.device_id == b.device_id
            &&& a.device_type == b.device_type
            &&& a.operations == b.operations
            &&& a.constraints == b.constraints
            &&& a.invariants == b.invariants
            &&& a.platform_impl == b.platform_impl
            &&& a.state.transition_history == b.state.transition_history
            &&& a.state.is_valid == b.state.is_valid
            &&& props_view(a.state.properties@) == props_view(np)
            &&& a.state.checksum == properties_checksum(a.state.properties@)
        },
    }
}

/// The layer after an operation was recorded with its output: the record
/// `device::operation`, with no inputs, that output, stamped with the
/// seed and chained from the previous state hash to the next.
pub open spec fn recorded(before: LayerView, after: LayerView, device_id: Seq<char>, op_name: Seq<char>, output: Seq<char>) -> bool {
    let next = state_hash_after(before.state_hash, output);
    &&& after.history.len() == before.history.len() + 1
    &&& after.history.take(before.history.len() as int) == before.history
    &&& after.history.last().operation_id@ == device_id + "::"@ + op_name
    &&& after.history.last().inputs@.len() == 0
    &&& after.history.last().output@ == output
    &&& after.history.last().pre_state_hash == before.state_hash
    &&& after.history.last().post_state_hash == next
    &&& after.history.last().timestamp == before.seed
    &&& after.state_hash == next
    &&& after.seed == before.seed
}

/// What running an operation does, step by step: the device and then the
/// operation must exist; the parameters must fit; no safety rule may
/// block it; no precondition may fail. Arithmetic then hands back its
/// operands (see `completed`); any other operation has its effect on the
/// device, then no postcondition may fail, and the result is recorded.
pub open spec fn executed(
    before: LayerView,
    after: LayerView,
    device_id: Seq<char>,
    op_name: Seq<char>,
    ps: Seq<(String, StateValue)>,
    r: OvieResult<OperationOutcome>,
) -> bool {
    match device_index_from(before.devices, device_id, 0) {
        None => fails_with(r, "Device '"@ + device_id + "' not found"@) && after == before,
        Some(di) => {
            let dev = before.devices[di];
            match operation_index_from(dev.operations@, op_name, 0) {
                None => fails_with(r, "Operation '"@ + op_name + "' not found on device '"@ + device_id + "'"@) && after
                    == before,
                Some(oi) => {
                    let op = dev.operations@[oi];
                    match parameters_error(op, ps) {
                        Some(m) => fails_with(r, m) && after == before,
                        None => match safety_scan(before.rules, op_name, 0).0 {
                            Some(b) => fails_with(
                                r,
                                "Operation '"@ + op_name + "' blocked by safety rule: "@ + before.rules[b].description@,
                            ) && blocked(before, after, op_name, before.rules[b]),
                            None => match failing_condition_from(op.preconditions@, 0) {
                                Some(c) => fails_with(r, "Precondition failed: "@ + op.preconditions@[c]@) && after
                                    == before,
                                None => match arithmetic_named(op_name) {
                                    Some(a) => match arithmetic_step(a, ps) {
                                        Err(m) => fails_with(r, m) && after == before,
                                        Ok((x, y)) => r matches Ok(OperationOutcome::Arithmetic { op, left, right })
                                            && op == a && left == x && right == y && after == before,
                                    },
                                    None => match device_effect(dev.state.properties@, op_name, ps) {
                                        Err(m) => fails_with(r, m) && after == before,
                                        Ok((np, v)) => {
                                            let mid = LayerView { history: before.history, state_hash: before.state_hash, ..after };
                                            &&& effect_applied(before, mid, di, np)
                                            &&& match failing_condition_from(op.postconditions@, 0) {
                                                Some(c) => fails_with(r, "Postcondition failed: "@ + op.postconditions@[c]@)
                                                    && after == mid,
                                                None => r matches Ok(OperationOutcome::Completed(x)) && x@ == v
                                                    && recorded(mid, after, device_id, op_name, value_text(v)),
                                            }
                                        },
                                    },
                                },
                            },
                        },
                    }
                },
            }
        },
    }
}

/// What completing an arithmetic operation with its result does: the
/// device and the operation must still exist and no postcondition may
/// fail; the result, a float of precision 10, is recorded.
pub open spec fn completed(
    before: LayerView,
    after: LayerView,
    device_id: Seq<char>,
    op_name: Seq<char>,
    bits: u64,
    r: OvieResult<StateValue>,
) -> bool {
    match device_index_from(before.devices, device_id, 0) {
        None => fails_with(r, "Device '"@ + device_id + "' not found"@) && after == before,
        Some(di) => {
            let dev = before.devices[di];
            match operation_index_from(dev.operations@, op_name, 0) {
                None => fails_with(r, "Operation '"@ + op_name + "' not found on device '"@ + device_id + "'"@) && after
                    == before,
                Some(oi) => match failing_condition_from(dev.operations@[oi].postconditions@, 0) {
                    Some(c) => fails_with(r, "Postcondition failed: "@ + dev.operations@[oi].postconditions@[c]@) && after
                        == before,
                    None => {
                        let v = ValueView::Float { value: bits, precision: 10 };
                        &&& r matches Ok(x) && x@ == v
                        &&& after.devices == before.devices
                        &&& after.rules == before.rules
                        &&& after.violations == before.violations
                        &&& recorded(before, after, device_id, op_name, value_text(v))
                    },
                },
            }
        },
    }
}

/// The strings a call supplies fit in memory (as any string held does).
pub open spec fn strings_fit(ps: Seq<(String, StateValue)>) -> bool {
    forall|i: int|
        0 <= i < ps.len() ==> ((#[trigger] ps[i]).1 matches StateValue::String { value: v, .. } ==> encode_utf8(v@).len()
            <= usize::MAX)
}

/// The position of the first device with the given id.
pub fn find_device(ds: &Vec<DeviceModel>, id: &str) -> (r: Option<usize>)
    ensures
        r matches Some(j) ==> device_index_from(ds@, id@, 0) == Some(j as int) && j < ds@.len(),
        r is None ==> device_index_from(ds@, id@, 0) is None,
{
    let mut i: usize = 0;
    while i < ds.len()
        invariant
            i <= ds@.len(),
            device_index_from(ds@, id@, 0) == device_index_from(ds@, id@, i as int),
        decreases ds@.len() - i,
    {
        if same_text(ds[i].device_id.as_str(), id) {
            return Some(i);
        }
        i = i + 1;
    }
    None
}

/// The position of the first operation with the given name.
pub fn find_operation(ops: &Vec<DeviceOperation>, name: &str) -> (r: Option<usize>)
    ensures
        r matches Some(j) ==> operation_index_from(ops@, name@, 0) == Some(j as int) && j < ops@.len(),
        r is None ==> operation_index_from(ops@, name@, 0) is None,
{
    let mut i: usize = 0;
    while i < ops.len()
        invariant
            i <= ops@.len(),
            operation_index_from(ops@, name@, 0) == operation_index_from(ops@, name@, i as int),
        decreases ops@.len() - i,
    {
        if same_text(ops[i].name.as_str(), name) {
            return Some(i);
        }
        i = i + 1;
    }
    None
}

fn find_declared(decl: &Vec<OperationParameter>, name: &str) -> (r: Option<usize>)
    ensures
        r matches Some(j) ==> declared_index_from(decl@, name@, 0) == Some(j as int) && j < decl@.len(),
        r is None ==> declared_index_from(decl@, name@, 0) is None,
{
    let mut i: usize = 0;
    while i < decl.len()
        invariant
            i <= decl@.len(),
            declared_index_from(decl@, name@, 0) == declared_index_from(decl@, name@, i as int),
        decreases decl@.len() - i,
    {
        if same_text(decl[i].name.as_str(), name) {
            return Some(i);
        }
        i = i + 1;
    }
    None
}

proof fn lemma_index_from_bounds(ds: Seq<DeviceModel>, id: Seq<char>, i: int)
    requires
        0 <= i,
    ensures
        device_index_from(ds, id, i) matches Some(k) ==> i <= k < ds.len() && ds[k].device_id@ == id,
    decreases ds.len() - i,
{
    if i < ds.len() && ds[i].device_id@ != id {
        lemma_index_from_bounds(ds, id, i + 1);
    }
}

/// Check a call's parameters against an operation's declared ones.
pub fn check_parameters(op: &DeviceOperation, ps: &Vec<(String, StateValue)>) -> (r: OvieResult<()>)
    requires
        strings_fit(ps@),
    ensures
        match parameters_error(*op, ps@) {
            Some(m) => fails_with(r, m),
            None => r is Ok,
        },
{
    let decl = &op.parameters;
    let mut i: usize = 0;
    while i < decl.len()
        invariant
            decl@ == op.parameters@,
            i <= decl@.len(),
            missing_required_from(decl@, ps@, 0) == missing_required_from(decl@, ps@, i as int),
        decreases decl@.len() - i,
    {
        if decl[i].required {
            match find_property(ps, decl[i].name.as_str()) {
                None => {
                    let mut m = owned("Required parameter '");
                    append(&mut m, decl[i].name.as_str());
                    append(&mut m, "' missing for operation '");
                    append(&mut m, op.name.as_str());
                    append(&mut m, "'");
                    return Err(OvieError::HardwareError(m));
                },
                Some(_) => {},
            }
        }
        i = i + 1;
    }
    let mut k: usize = 0;
    while k < ps.len()
        invariant
            decl@ == op.parameters@,
            missing_required_from(decl@, ps@, 0) is None,
            strings_fit(ps@),
            k <= ps@.len(),
            supplied_error_from(decl@, ps@, 0) == supplied_error_from(decl@, ps@, k as int),
        decreases ps@.len() - k,
    {
        let ghost e = ps@[k as int];
        assert(declared_index_from(decl@, e.0@, 0) == declared_index_from(decl@, ps[k as int].0@, 0));
        let pname = ps[k].0.as_str();
        assert(pname@ == e.0@);
        let found = find_declared(decl, pname);
        match found {
            Some(d) => {
                assert(declared_index_from(decl@, e.0@, 0) == Some(d as int));
                assert(supplied_error_from(decl@, ps@, k as int) == match value_error(e.1, decl@[d as int].param_type) {
                    Some(m) => Some(m),
                    None => supplied_error_from(decl@, ps@, k + 1),
                });
                match check_value(&ps[k].1, &decl[d].param_type) {
                    Err(err) => {
                        return Err(err);
                    },
                    Ok(()) => {},
                }
            },
            None => {
                assert(supplied_error_from(decl@, ps@, k as int) == supplied_error_from(decl@, ps@, k + 1));
            },
        }
        k = k + 1;
    }
    Ok(())
}

/// The position of the first condition that names a failure.
pub fn failing_condition(cs: &Vec<String>) -> (r: Option<usize>)
    ensures
        r matches Some(j) ==> failing_condition_from(cs@, 0) == Some(j as int) && j < cs@.len(),
        r is None ==> failing_condition_from(cs@, 0) is None,
{
    let mut i: usize = 0;
    while i < cs.len()
        invariant
            i <= cs@.len(),
            failing_condition_from(cs@, 0) == failing_condition_from(cs@, i as int),
        decreases cs@.len() - i,
    {
        if contains_text(cs[i].as_str(), "FAIL") {
            return Some(i);
        }
        i = i + 1;
    }
    None
}

/// The arithmetic an operation's name names, if any.
pub fn arithmetic_of(name: &str) -> (r: Option<ArithmeticOp>)
    ensures
        r == arithmetic_named(name@),
{
    if same_text(name, "add") {
        Some(ArithmeticOp::Add)
    } else if same_text(name, "subtract") {
        Some(ArithmeticOp::Subtract)
    } else if same_text(name, "multiply") {
        Some(ArithmeticOp::Multiply)
    } else if same_text(name, "divide") {
        Some(ArithmeticOp::Divide)
    } else {
        None
    }
}

fn operand(v: &StateValue) -> (r: Option<Operand>)
    ensures
        r == operand_of(v@),
{
    match v {
        StateValue::Integer { value, .. } => Some(Operand::Integer(*value)),
        StateValue::Float { value, .. } => Some(Operand::Float(*value)),
        _ => None,
    }
}

/// The operands of an arithmetic operation.
pub fn arithmetic_operands(op: ArithmeticOp, ps: &Vec<(String, StateValue)>) -> (r: Result<(Operand, Operand), OvieError>)
    ensures
        match arithmetic_step(op, ps@) {
            Ok(p) => r == Ok::<(Operand, Operand), OvieError>(p),
            Err(m) => fails_with(r, m),
        },
{
    if ps.len() != 2 {
        let mut m = owned("Mathematical operation requires 2 parameters, got ");
        push_decimal(&mut m, ps.len() as u64);
        return Err(OvieError::HardwareError(m));
    }
    match (operand(&ps[0].1), operand(&ps[1].1)) {
        (Some(a), Some(b)) => {
            let zero = match b {
                Operand::Integer(v) => v == 0,
                Operand::Float(bits) => bits == 0 || bits == 0x8000_0000_0000_0000u64,
            };
            if op == ArithmeticOp::Divide && zero {
                Err(OvieError::HardwareError(owned("Division by zero")))
            } else {
                Ok((a, b))
            }
        },
        _ => Err(OvieError::HardwareError(owned("Invalid parameter type for mathematical operation"))),
    }
}

/// The string a call supplies for a parameter, if it supplies one.
fn string_param_exec<'a>(ps: &'a Vec<(String, StateValue)>, name: &str) -> (r: Option<&'a String>)
    ensures
        match string_param(ps@, name@) {
            Some(v) => r == Some(&v),
            None => r is None,
        },
{
    proof {
        lemma_property_index_from(ps@, name@, 0);
    }
    match find_property(ps, name) {
        Some(k) => match &ps[k].1 {
            StateValue::String { value, .. } => Some(value),
            _ => None,
        },
        None => None,
    }
}

/// Run the effect of an operation (other than arithmetic) on a device's
/// state.
pub fn apply_effect(state: &mut DeviceState, op_name: &str, ps: &Vec<(String, StateValue)>) -> (r: OvieResult<StateValue>)
    ensures
        match device_effect(old(state).properties@, op_name@, ps@) {
            Err(m) => fails_with(r, m) && *final(state) == *old(state),
            Ok((np, v)) => r matches Ok(x) && x@ == v && match np {
                None => *final(state) == *old(state),
                Some(n) => {
                    &&& props_view(final(state).properties@) == props_view(n)
                    &&& final(state).checksum == properties_checksum(final(state).properties@)
                    &&& final(state).transition_history == old(state).transition_history
                    &&& final(state).is_valid == old(state).is_valid
                },
            },
        },
{
    if same_text(op_name, "read_property") {
        match string_param_exec(ps, "property") {
            Some(pn) => {
                proof {
                    lemma_property_index_from(state.properties@, pn@, 0);
                }
                match find_property(&state.properties, pn.as_str()) {
                    Some(k) => Ok(state.properties[k].1.duplicate()),
                    None => {
                        let mut m = owned("Property '");
                        append(&mut m, pn.as_str());
                        append(&mut m, "' not found");
                        Err(OvieError::HardwareError(m))
                    },
                }
            },
            None => Err(OvieError::HardwareError(owned("Invalid property name parameter"))),
        }
    } else if same_text(op_name, "write_property") {
        let pn = string_param_exec(ps, "property");
        proof {
            lemma_property_index_from(ps@, "value"@, 0);
        }
        let kv = find_property(ps, "value");
        match (pn, kv) {
            (Some(pn), Some(kv)) => {
                let name = pn.clone();
                let value = ps[kv].1.duplicate();
                proof {
                    lemma_with_property_view(state.properties@, name, value, *pn, ps@[kv as int].1);
                }
                state.set_property(name, value);
                Ok(StateValue::Boolean(true))
            },
            _ => Err(OvieError::HardwareError(owned("Invalid parameters for write_property"))),
        }
    } else if same_text(op_name, "get_state") {
        let mut t = owned("Device state: ");
        push_decimal(&mut t, state.properties.len() as u64);
        append(&mut t, " properties");
        Ok(StateValue::String { value: t, max_length: 1000 })
    } else {
        Ok(StateValue::Boolean(true))
    }
}

/// The state hash after an operation with the given output.
pub fn hash_after(previous: u64, output: &str) -> (r: u64)
    ensures
        r == state_hash_after(previous, output@),
{
    let mut h = DefaultHasher::new();
    let b: [u8; 8] = [
        (previous & 0xff) as u8,
        ((previous >> 8u64) & 0xff) as u8,
        ((previous >> 16u64) & 0xff) as u8,
        ((previous >> 24u64) & 0xff) as u8,
        ((previous >> 32u64) & 0xff) as u8,
        ((previous >> 40u64) & 0xff) as u8,
        ((previous >> 48u64) & 0xff) as u8,
        ((previous >> 56u64) & 0xff) as u8,
    ];
    h.write(b.as_slice());
    assert(b@ =~= le_bytes(previous));
    hash_text(&mut h, output);
    assert(h@ =~= seq![le_bytes(previous)] + text_writes(output@));
    h.finish()
}

proof fn lemma_remove_insert<T>(s: Seq<T>, i: int, x: T)
    requires
        0 <= i < s.len(),
    ensures
        s.remove(i).insert(i, x) == s.update(i, x),
{
    assert(s.remove(i).insert(i, x) =~= s.update(i, x));
}

fn condition_error(prefix: &str, c: &String) -> (r: OvieError)
    ensures
        r@ == ErrorView::HardwareError(prefix@ + c@),
{
    let mut m = owned(prefix);
    append(&mut m, c.as_str());
    OvieError::HardwareError(m)
}

fn device_not_found(device_id: &str) -> (r: OvieError)
    ensures
        r@ == ErrorView::HardwareError("Device '"@ + device_id@ + "' not found"@),
{
    let mut m = owned("Device '");
    append(&mut m, device_id);
    append(&mut m, "' not found");
    OvieError::HardwareError(m)
}

fn operation_not_found(device_id: &str, operation_name: &str) -> (r: OvieError)
    ensures
        r@ == ErrorView::HardwareError("Operation '"@ + operation_name@ + "' not found on device '"@ + device_id@ + "'"@),
{
    let mut m = owned("Operation '");
    append(&mut m, operation_name);
    append(&mut m, "' not found on device '");
    append(&mut m, device_id);
    append(&mut m, "'");
    OvieError::HardwareError(m)
}

/// Run an operation on one of the devices, against the safety rules,
/// recording what it does (see `executed`).
pub fn run_operation(
    devices: &mut Vec<DeviceModel>,
    analyzer: &mut HardwareSafetyAnalyzer,
    enforcer: &mut DeterminismEnforcer,
    device_id: &str,
    operation_name: &str,
    ps: &Vec<(String, StateValue)>,
) -> (r: OvieResult<OperationOutcome>)
    requires
        strings_fit(ps@),
        forall|i: int| 0 <= i < old(analyzer).safety_rules@.len() ==> (#[trigger] old(analyzer).safety_rules@[i]).actions@.len() > 0,
    ensures
        executed(
            layer_of(old(devices)@, *old(analyzer), *old(enforcer)),
            layer_of(final(devices)@, *final(analyzer), *final(enforcer)),
            device_id@,
            operation_name@,
            ps@,
            r,
        ),
{
    let di = match find_device(devices, device_id) {
        None => {
            return Err(device_not_found(device_id));
        },
        Some(i) => i,
    };
    let oi = match find_operation(&devices[di].operations, operation_name) {
        None => {
            return Err(operation_not_found(device_id, operation_name));
        },
        Some(j) => j,
    };
    match check_parameters(&devices[di].operations[oi], ps) {
        Err(e) => {
            return Err(e);
        },
        Ok(()) => {},
    }
    assert(applying_rules_have_actions(analyzer.safety_rules@, operation_name@));
    match analyzer.check_operation_safety(operation_name) {
        Err(e) => {
            return Err(e);
        },
        Ok(_) => {},
    }
    match failing_condition(&devices[di].operations[oi].preconditions) {
        Some(c) => {
            return Err(condition_error("Precondition failed: ", &devices[di].operations[oi].preconditions[c]));
        },
        None => {},
    }
    match arithmetic_of(operation_name) {
        Some(a) => {
            return match arithmetic_operands(a, ps) {
                Err(e) => Err(e),
                Ok((x, y)) => Ok(OperationOutcome::Arithmetic { op: a, left: x, right: y }),
            };
        },
        None => {},
    }
    let ghost before = devices@;
    let mut dev = devices.remove(di);
    let res = apply_effect(&mut dev.state, operation_name, ps);
    devices.insert(di, dev);
    proof {
        lemma_remove_insert(before, di as int, devices@[di as int]);
        assert(devices@ == before.update(di as int, devices@[di as int]));
    }
    let result = match res {
        Err(e) => {
            assert(devices@ =~= before);
            return Err(e);
        },
        Ok(v) => v,
    };
    proof {
        if devices@[di as int] == before[di as int] {
            assert(devices@ =~= before);
        }
    }
    match failing_condition(&devices[di].operations[oi].postconditions) {
        Some(c) => {
            return Err(condition_error("Postcondition failed: ", &devices[di].operations[oi].postconditions[c]));
        },
        None => {},
    }
    enforcer.record_operation(device_id, operation_name, &result);
    Ok(OperationOutcome::Completed(result))
}

/// Complete an arithmetic operation with its result, a float by its bit
/// pattern (see `completed`).
pub fn complete_operation(
    devices: &Vec<DeviceModel>,
    analyzer: &HardwareSafetyAnalyzer,
    enforcer: &mut DeterminismEnforcer,
    device_id: &str,
    operation_name: &str,
    bits: u64,
) -> (r: OvieResult<StateValue>)
    ensures
        completed(
            layer_of(devices@, *analyzer, *old(enforcer)),
            layer_of(devices@, *analyzer, *final(enforcer)),
            device_id@,
            operation_name@,
            bits,
            r,
        ),
{
    let di = match find_device(devices, device_id) {
        None => {
            return Err(device_not_found(device_id));
        },
        Some(i) => i,
    };
    let oi = match find_operation(&devices[di].operations, operation_name) {
        None => {
            return Err(operation_not_found(device_id, operation_name));
        },
        Some(j) => j,
    };
    match failing_condition(&devices[di].operations[oi].postconditions) {
        Some(c) => {
            return Err(condition_error("Postcondition failed: ", &devices[di].operations[oi].postconditions[c]));
        },
        None => {},
    }
    let result = StateValue::Float { value: bits, precision: 10 };
    enforcer.record_operation(device_id, operation_name, &result);
    Ok(result)
}

/// Running an operation keeps the devices and their ids.
pub proof fn lemma_executed_keeps_ids(
    before: LayerView,
    after: LayerView,
    device_id: Seq<char>,
    op_name: Seq<char>,
    ps: Seq<(String, StateValue)>,
    r: OvieResult<OperationOutcome>,
)
    requires
        executed(before, after, device_id, op_name, ps, r),
    ensures
        after.devices.len() == before.devices.len(),
        forall|j: int| 0 <= j < before.devices.len() ==> (#[trigger] after.devices[j]).device_id == before.devices[j].device_id,
        after.rules == before.rules,
{
}

/// An operation whose name speaks of a register or of `unsafe` never runs
/// under the default safety rules: the call is refused, and neither the
/// devices nor the record of operations change.
pub proof fn law_unsafe_operation_refused(
    before: LayerView,
    after: LayerView,
    device_id: Seq<char>,
    op_name: Seq<char>,
    ps: Seq<(String, StateValue)>,
    r: OvieResult<OperationOutcome>,
)
    requires
        default_rules_ok(before.rules),
        has_substring(op_name, "unsafe"@) || has_substring(op_name, "register"@),
        executed(before, after, device_id, op_name, ps, r),
    ensures
        r is Err,
        after.devices == before.devices,
        after.history == before.history,
        after.state_hash == before.state_hash,
{
    law_default_rules_refuse(before.rules, op_name);
}

} // verus!
