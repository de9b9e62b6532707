use oviec::device_ops::{ArithmeticOp, Operand, OperationOutcome};
use oviec::device_state::value_debug;
use oviec::error::OvieError;
use oviec::hardware::{
    DeviceModel, DeviceOperation, DeviceState, DeviceType, OperationParameter, PlatformAbstractionLayer,
    PlatformConfiguration, SafetyLevel, StateValue,
};
use oviec::text_map::TextMap;

fn config() -> PlatformConfiguration {
    PlatformConfiguration {
        platform_id: "test".to_string(),
        arch_settings: TextMap::new(),
        hardware_features: vec![],
        safety_level: SafetyLevel::Maximum,
        deterministic_mode: true,
    }
}

fn op(name: &str, parameters: Vec<OperationParameter>) -> DeviceOperation {
    DeviceOperation {
        name: name.to_string(),
        description: format!("{} operation", name),
        parameters,
        output_type: None,
        preconditions: vec![],
        postconditions: vec![],
        side_effects: vec![],
        is_deterministic: true,
    }
}

fn string_param(name: &str, max_length: usize) -> OperationParameter {
    OperationParameter {
        name: name.to_string(),
        param_type: StateValue::String { value: String::new(), max_length },
        required: true,
        default_value: None,
    }
}

fn text(value: &str, max_length: usize) -> StateValue {
    StateValue::String { value: value.to_string(), max_length }
}

fn message(e: OvieError) -> String {
    match e {
        OvieError::HardwareError(m) => m,
        other => panic!("unexpected error {:?}", other),
    }
}

fn completed(r: Result<OperationOutcome, OvieError>) -> StateValue {
    match r {
        Ok(OperationOutcome::Completed(v)) => v,
        other => panic!("expected a completed operation, got {:?}", other),
    }
}

#[test]
fn test_mathematical_operations() {
    let mut pal = PlatformAbstractionLayer::new(config());
    let mut device = DeviceModel::new("test_device".to_string(), DeviceType::Custom("test".to_string()), "test");

    device.add_operation(DeviceOperation {
        name: "read_property".to_string(),
        description: "Read a device property".to_string(),
        parameters: vec![string_param("property", 100)],
        output_type: Some(text("", 1000)),
        preconditions: vec![],
        postconditions: vec![],
        side_effects: vec![],
        is_deterministic: true,
    });

    device.state.set_property("test_prop".to_string(), text("test_value", 100));

    assert!(pal.register_device(device).is_ok());

    let params = vec![("property".to_string(), text("test_prop", 100))];
    let result = pal.execute_operation("test_device", "read_property", &params);
    assert!(result.is_ok());

    if let Ok(OperationOutcome::Completed(StateValue::String { value, .. })) = result {
        assert_eq!(value, "test_value");
    } else {
        panic!("Expected string result");
    }
}

#[test]
fn value_text_is_the_debug_text() {
    let values = vec![
        StateValue::Boolean(false),
        StateValue::Integer { value: -5, min: -10, max: 10 },
        StateValue::Float { value: 4614253070214989087, precision: 3 },
        text("say \"hi\"\n", 12),
        StateValue::Binary { data: vec![0, 7, 255], max_size: 4 },
        StateValue::Binary { data: vec![], max_size: 0 },
        StateValue::Enum { value: "on".to_string(), valid_values: vec!["on".to_string(), "off".to_string()] },
    ];
    for v in &values {
        assert_eq!(value_debug(v), format!("{:?}", v));
    }
}

#[test]
fn read_after_write_property() {
    let mut state = DeviceState::new();
    state.set_property("a".to_string(), StateValue::Boolean(true));
    state.set_property("b".to_string(), StateValue::Integer { value: 1, min: 0, max: 9 });
    let first = state.checksum;
    state.set_property("a".to_string(), StateValue::Boolean(false));
    assert_eq!(state.properties.len(), 2);
    assert!(matches!(state.get_property("a"), Some(StateValue::Boolean(false))));
    assert!(matches!(state.get_property("b"), Some(StateValue::Integer { value: 1, .. })));
    assert!(state.get_property("c").is_none());
    assert_ne!(state.checksum, first);

    let mut other = DeviceState::new();
    other.set_property("b".to_string(), StateValue::Integer { value: 1, min: 0, max: 9 });
    other.set_property("a".to_string(), StateValue::Boolean(false));
    assert_eq!(other.checksum, state.checksum);
}

fn device_with(ops: Vec<DeviceOperation>) -> PlatformAbstractionLayer {
    let mut pal = PlatformAbstractionLayer::new(config());
    let mut device = DeviceModel::new("dev".to_string(), DeviceType::SensorDevice, "test");
    for o in ops {
        device.add_operation(o);
    }
    pal.register_device(device).unwrap();
    pal
}

#[test]
fn write_then_read_through_the_layer() {
    let write = op("write_property", vec![]);
    let read = op("read_property", vec![string_param("property", 100)]);
    let state = op("get_state", vec![]);
    let mut pal = device_with(vec![write, read, state]);

    let params = vec![
        ("property".to_string(), text("mode", 100)),
        ("value".to_string(), StateValue::Integer { value: 3, min: 0, max: 5 }),
    ];
    let r = completed(pal.execute_operation("dev", "write_property", &params));
    assert!(matches!(r, StateValue::Boolean(true)));

    let read_params = vec![("property".to_string(), text("mode", 100))];
    let v = completed(pal.execute_operation("dev", "read_property", &read_params));
    assert!(matches!(v, StateValue::Integer { value: 3, min: 0, max: 5 }));

    let s = completed(pal.execute_operation("dev", "get_state", &vec![]));
    match s {
        StateValue::String { value, max_length } => {
            assert_eq!(value, "Device state: 1 properties");
            assert_eq!(max_length, 1000);
        }
        other => panic!("unexpected {:?}", other),
    }

    let history = pal.determinism_enforcer().operation_history();
    assert_eq!(history.len(), 3);
    assert_eq!(history[0].operation_id, "dev::write_property");
    assert_eq!(history[0].output, "Boolean(true)");
    assert_eq!(history[1].output, "Integer { value: 3, min: 0, max: 5 }");
    assert_eq!(history[1].pre_state_hash, history[0].post_state_hash);
    assert_eq!(history[0].timestamp, 12345);
}

#[test]
fn refused_calls() {
    let mut guarded = op("guarded", vec![]);
    guarded.preconditions = vec!["ready".to_string(), "FAIL when busy".to_string()];
    let mut checked = op("checked", vec![]);
    checked.postconditions = vec!["FAIL afterwards".to_string()];
    let unsafe_op = op("unsafe_poke", vec![]);
    let bounded = op(
        "bounded",
        vec![OperationParameter {
            name: "n".to_string(),
            param_type: StateValue::Integer { value: 0, min: 1, max: 3 },
            required: true,
            default_value: None,
        }],
    );
    let read = op("read_property", vec![]);
    let mut pal = device_with(vec![guarded, checked, unsafe_op, bounded, read]);

    assert_eq!(message(pal.execute_operation("nope", "x", &vec![]).unwrap_err()), "Device 'nope' not found");
    assert_eq!(message(pal.execute_operation("dev", "x", &vec![]).unwrap_err()), "Operation 'x' not found on device 'dev'");
    assert_eq!(
        message(pal.execute_operation("dev", "bounded", &vec![]).unwrap_err()),
        "Required parameter 'n' missing for operation 'bounded'"
    );
    let too_big = vec![("n".to_string(), StateValue::Integer { value: 7, min: 0, max: 0 })];
    assert_eq!(message(pal.execute_operation("dev", "bounded", &too_big).unwrap_err()), "Integer value 7 out of range [1, 3]");
    assert_eq!(
        message(pal.execute_operation("dev", "unsafe_poke", &vec![]).unwrap_err()),
        "Operation 'unsafe_poke' blocked by safety rule: Prevent unsafe hardware operations"
    );
    assert_eq!(pal.safety_analyzer().violation_history().len(), 1);
    assert_eq!(pal.safety_analyzer().violation_history()[0].rule_id, "no_unsafe_operations");
    assert_eq!(message(pal.execute_operation("dev", "guarded", &vec![]).unwrap_err()), "Precondition failed: FAIL when busy");
    assert_eq!(message(pal.execute_operation("dev", "checked", &vec![]).unwrap_err()), "Postcondition failed: FAIL afterwards");
    assert_eq!(message(pal.execute_operation("dev", "read_property", &vec![]).unwrap_err()), "Invalid property name parameter");
    let missing = vec![("property".to_string(), text("ghost", 10))];
    assert_eq!(message(pal.execute_operation("dev", "read_property", &missing).unwrap_err()), "Property 'ghost' not found");
    assert!(pal.determinism_enforcer().operation_history().is_empty());
}

#[test]
fn arithmetic_hands_back_its_operands() {
    let mut pal = device_with(vec![op("divide", vec![]), op("add", vec![])]);
    let params = vec![
        ("a".to_string(), StateValue::Integer { value: 6, min: 0, max: 10 }),
        ("b".to_string(), StateValue::Float { value: 2.0f64.to_bits(), precision: 2 }),
    ];
    match pal.execute_operation("dev", "divide", &params) {
        Ok(OperationOutcome::Arithmetic { op, left, right }) => {
            assert_eq!(op, ArithmeticOp::Divide);
            assert_eq!(left, Operand::Integer(6));
            assert_eq!(right, Operand::Float(2.0f64.to_bits()));
        }
        other => panic!("unexpected {:?}", other),
    }
    let result = pal.complete_operation("dev", "divide", 3.0f64.to_bits()).unwrap();
    assert!(matches!(result, StateValue::Float { precision: 10, .. }));
    assert_eq!(pal.determinism_enforcer().operation_history().len(), 1);
    assert_eq!(pal.determinism_enforcer().operation_history()[0].operation_id, "dev::divide");

    let zero = vec![
        ("a".to_string(), StateValue::Integer { value: 6, min: 0, max: 10 }),
        ("b".to_string(), StateValue::Float { value: (-0.0f64).to_bits(), precision: 2 }),
    ];
    assert_eq!(message(pal.execute_operation("dev", "divide", &zero).unwrap_err()), "Division by zero");
    let one = vec![("a".to_string(), StateValue::Integer { value: 6, min: 0, max: 10 })];
    assert_eq!(
        message(pal.execute_operation("dev", "add", &one).unwrap_err()),
        "Mathematical operation requires 2 parameters, got 1"
    );
    let wrong = vec![("a".to_string(), StateValue::Boolean(true)), ("b".to_string(), StateValue::Boolean(false))];
    assert_eq!(
        message(pal.execute_operation("dev", "add", &wrong).unwrap_err()),
        "Invalid parameter type for mathematical operation"
    );
}
