use std::collections::hash_map::DefaultHasher;
use std::hash::{Hash, Hasher};
use oviec::error::OvieError;
use oviec::hardware::{
    ConstraintSeverity, DeterminismEnforcer, DeviceFactory, DeviceModel, DeviceOperation, DeviceType,
    HardwareSafetyAnalyzer, PlatformAbstractionLayer, PlatformConfiguration, SafetyConstraint, SafetyLevel,
    StateValue,
};
use oviec::hardware_safety::{configurations_compatible, HardwareBehaviorAnalyzer, HardwareConfiguration};
use oviec::text_map::TextMap;

fn config(platform_id: &str, deterministic_mode: bool) -> PlatformConfiguration {
    PlatformConfiguration {
        platform_id: platform_id.to_string(),
        arch_settings: TextMap::new(),
        hardware_features: vec![],
        safety_level: SafetyLevel::Maximum,
        deterministic_mode,
    }
}

fn operation(name: &str, description: &str, is_deterministic: bool) -> DeviceOperation {
    DeviceOperation {
        name: name.to_string(),
        description: description.to_string(),
        parameters: vec![],
        output_type: None,
        preconditions: vec![],
        postconditions: vec![],
        side_effects: vec![],
        is_deterministic,
    }
}

fn hardware_message(e: OvieError) -> String {
    match e {
        OvieError::HardwareError(m) => m,
        other => panic!("unexpected error {:?}", other),
    }
}

#[test]
fn test_device_model_creation() {
    let device = DeviceModel::new("test_device".to_string(), DeviceType::Custom("test".to_string()), "x86_64-linux");
    assert_eq!(device.device_id, "test_device");
    assert_eq!(device.device_type, DeviceType::Custom("test".to_string()));
    assert!(device.operations.is_empty());
    assert!(device.constraints.is_empty());
    assert!(device.invariants.is_empty());
}

#[test]
fn test_pal_device_registration() {
    let mut pal = PlatformAbstractionLayer::new(config("test_platform", true));
    let device = DeviceFactory::create_memory_controller("test_platform");

    assert!(pal.register_device(device).is_ok());
    assert!(pal.get_device("memory_controller_0").is_some());
}

#[test]
fn test_safety_analyzer() {
    let mut analyzer = HardwareSafetyAnalyzer::new();
    let device = DeviceFactory::create_memory_controller("test_platform");
    let operation = &device.operations[0];

    assert!(analyzer.check_operation_safety(&operation.name).is_ok());
}

#[test]
fn test_determinism_enforcer() {
    let mut enforcer = DeterminismEnforcer::new();
    let result = StateValue::Boolean(true);

    enforcer.record_operation("test_device", "test_operation", &result);
    assert_eq!(enforcer.operation_history().len(), 1);
    assert_eq!(enforcer.operation_history()[0].operation_id, "test_device::test_operation");
}

#[test]
fn test_device_factory() {
    let memory_controller = DeviceFactory::create_memory_controller("p");
    assert_eq!(memory_controller.device_type, DeviceType::MemoryController);
    assert!(!memory_controller.operations.is_empty());
    assert!(!memory_controller.constraints.is_empty());
    assert!(!memory_controller.invariants.is_empty());

    let timer = DeviceFactory::create_timer_device("p");
    assert_eq!(timer.device_type, DeviceType::TimerDevice);
    assert!(!timer.operations.is_empty());

    let io_controller = DeviceFactory::create_io_controller("p");
    assert_eq!(io_controller.device_type, DeviceType::IoController);
    assert!(!io_controller.operations.is_empty());
}

#[test]
fn test_state_value_constraints() {
    let integer_value = StateValue::Integer { value: 50, min: 0, max: 100 };
    let constraint = StateValue::Integer { value: 0, min: 0, max: 100 };

    let pal = PlatformAbstractionLayer::new(config("test", true));
    assert!(pal.validate_state_value_constraints(&integer_value, &constraint).is_ok());

    let invalid_value = StateValue::Integer { value: 150, min: 0, max: 100 };
    assert!(pal.validate_state_value_constraints(&invalid_value, &constraint).is_err());
}

#[test]
fn test_no_direct_register_access() {
    let pal = PlatformAbstractionLayer::new(config("test", true));

    let mut bad_device = DeviceModel::new("bad_device".to_string(), DeviceType::Custom("test".to_string()), "test");
    bad_device.platform_impl.direct_register_access = true;

    assert!(pal.validate_device_model(&bad_device).is_err());
}

#[test]
fn test_deterministic_mode_validation() {
    let pal = PlatformAbstractionLayer::new(config("test", true));

    let mut device = DeviceModel::new("test_device".to_string(), DeviceType::Custom("test".to_string()), "test");
    device.add_operation(operation("non_deterministic_op", "A non-deterministic operation", false));

    assert!(pal.validate_device_model(&device).is_err());
}

#[test]
fn test_property_15_hardware_abstraction_safety() {
    let device = DeviceFactory::create_memory_controller("x86_64-linux");

    for operation in &device.operations {
        assert!(!operation.name.contains("register"));
        assert!(!operation.name.contains("direct"));
        assert!(!operation.name.contains("raw"));
        assert!(!operation.name.contains("unsafe"));
    }

    for operation in &device.operations {
        assert!(
            operation.name.contains("allocate")
                || operation.name.contains("read")
                || operation.name.contains("write")
                || operation.name.contains("safe")
                || operation.name.contains("mathematical")
                || operation.name.starts_with("custom_")
        );
    }

    for constraint in &device.constraints {
        if constraint.severity == ConstraintSeverity::Critical {
            assert!(
                constraint.compile_time_checkable,
                "Critical constraint '{}' must be compile-time checkable",
                constraint.id
            );
        }
    }

    let pal = PlatformAbstractionLayer::new(config("test_deterministic", true));

    let mut test_device = DeviceModel::new("test_device".to_string(), DeviceType::Custom("test".to_string()), "test");
    test_device.add_operation(operation("deterministic_op", "A deterministic operation", true));
    assert!(pal.validate_device_model(&test_device).is_ok());

    let mut non_det_device =
        DeviceModel::new("non_det_device".to_string(), DeviceType::Custom("test".to_string()), "test");
    non_det_device.add_operation(operation("non_deterministic_op", "A non-deterministic operation", false));
    assert!(pal.validate_device_model(&non_det_device).is_err());

    let max_safety_pal = PlatformAbstractionLayer::new(config("max_safety", true));
    assert_eq!(max_safety_pal.platform_config().safety_level, SafetyLevel::Maximum);
    assert!(max_safety_pal.platform_config().deterministic_mode);

    let features = vec!["deterministic_math".to_string()];
    assert!(configurations_compatible("x86_64-linux", "x86_64", &features, "x86_64-linux", "x86_64", &features));
}

#[test]
fn validation_messages() {
    let pal = PlatformAbstractionLayer::new(config("test", true));
    let mut bad = DeviceModel::new("bad".to_string(), DeviceType::Custom("t".to_string()), "test");
    bad.platform_impl.direct_register_access = true;
    assert_eq!(
        hardware_message(pal.validate_device_model(&bad).unwrap_err()),
        "Direct register access is not allowed in device models"
    );

    let mut nd = DeviceModel::new("nd".to_string(), DeviceType::Custom("t".to_string()), "test");
    nd.add_operation(operation("ok_op", "fine", true));
    nd.add_operation(operation("nd_op", "not fine", false));
    assert_eq!(
        hardware_message(pal.validate_device_model(&nd).unwrap_err()),
        "Non-deterministic operation 'nd_op' not allowed in deterministic mode"
    );

    let relaxed = PlatformAbstractionLayer::new(config("test", false));
    assert!(relaxed.validate_device_model(&nd).is_ok());

    let mut critical = DeviceModel::new("c".to_string(), DeviceType::Custom("t".to_string()), "test");
    critical.add_constraint(SafetyConstraint {
        id: "late_check".to_string(),
        description: "d".to_string(),
        expression: "e".to_string(),
        severity: ConstraintSeverity::Critical,
        compile_time_checkable: false,
    });
    assert_eq!(
        hardware_message(relaxed.validate_device_model(&critical).unwrap_err()),
        "Critical constraint 'late_check' must be compile-time checkable"
    );
}

#[test]
fn state_value_messages() {
    let pal = PlatformAbstractionLayer::new(config("test", true));
    let c = StateValue::Integer { value: 0, min: -5, max: 10 };
    assert_eq!(
        hardware_message(pal.validate_state_value_constraints(&StateValue::Integer { value: -7, min: 0, max: 0 }, &c).unwrap_err()),
        "Integer value -7 out of range [-5, 10]"
    );
    let s = StateValue::String { value: String::new(), max_length: 3 };
    assert_eq!(
        hardware_message(
            pal.validate_state_value_constraints(&StateValue::String { value: "héllo".to_string(), max_length: 0 }, &s)
                .unwrap_err()
        ),
        "String length 6 exceeds maximum 3"
    );
    assert!(pal
        .validate_state_value_constraints(&StateValue::String { value: "abc".to_string(), max_length: 0 }, &s)
        .is_ok());
    let b = StateValue::Binary { data: vec![], max_size: 2 };
    assert_eq!(
        hardware_message(
            pal.validate_state_value_constraints(&StateValue::Binary { data: vec![1, 2, 3], max_size: 0 }, &b)
                .unwrap_err()
        ),
        "Binary data size 3 exceeds maximum 2"
    );
    let e = StateValue::Enum { value: String::new(), valid_values: vec!["on".to_string(), "off".to_string()] };
    assert_eq!(
        hardware_message(
            pal.validate_state_value_constraints(&StateValue::Enum { value: "dim".to_string(), valid_values: vec![] }, &e)
                .unwrap_err()
        ),
        "Enum value 'dim' not in valid set: [\"on\", \"off\"]"
    );
    assert!(pal
        .validate_state_value_constraints(&StateValue::Enum { value: "on".to_string(), valid_values: vec![] }, &e)
        .is_ok());
    assert!(pal.validate_state_value_constraints(&StateValue::Boolean(true), &c).is_ok());
}

#[test]
fn registered_device_is_found_and_not_registered_twice() {
    let mut pal = PlatformAbstractionLayer::new(config("p", true));
    assert!(pal.get_device("timer_0").is_none());
    assert!(pal.register_device(DeviceFactory::create_timer_device("p")).is_ok());
    assert_eq!(pal.get_device("timer_0").unwrap().device_id, "timer_0");
    let again = pal.register_device(DeviceFactory::create_timer_device("p"));
    assert_eq!(hardware_message(again.unwrap_err()), "Device 'timer_0' is already registered");
    let io = pal.register_device(DeviceFactory::create_io_controller("p"));
    assert_eq!(
        hardware_message(io.unwrap_err()),
        "Non-deterministic operation 'read_data' not allowed in deterministic mode"
    );
}

#[test]
fn safety_rules_block_unsafe_operations() {
    let mut analyzer = HardwareSafetyAnalyzer::new();
    assert_eq!(analyzer.check_operation_safety("allocate_memory").unwrap(), Vec::<String>::new());
    assert!(analyzer.violation_history().is_empty());
    let r = analyzer.check_operation_safety("write_register");
    assert_eq!(
        hardware_message(r.unwrap_err()),
        "Operation 'write_register' blocked by safety rule: Prevent direct register access"
    );
    assert_eq!(analyzer.violation_history().len(), 1);
    assert_eq!(analyzer.violation_history()[0].rule_id, "no_direct_register_access");
    assert_eq!(analyzer.violation_history()[0].operation, "write_register");
    let mut analyzer = HardwareSafetyAnalyzer::new();
    let r = analyzer.check_operation_safety("unsafe_poke");
    assert_eq!(
        hardware_message(r.unwrap_err()),
        "Operation 'unsafe_poke' blocked by safety rule: Prevent unsafe hardware operations"
    );
    assert_eq!(analyzer.violation_history().len(), 1);
    assert_eq!(analyzer.violation_history()[0].rule_id, "no_unsafe_operations");
    assert_eq!(analyzer.violation_history()[0].operation, "unsafe_poke");
    assert_eq!(analyzer.check_operation_safety("read_memory").unwrap(), Vec::<String>::new());
    assert_eq!(analyzer.violation_history().len(), 1);
}

#[test]
fn enforcer_chains_state_hashes() {
    let mut enforcer = DeterminismEnforcer::new();
    assert_eq!(enforcer.post_state_hash(), 0);
    enforcer.record_operation("d", "a", &StateValue::Boolean(true));
    enforcer.record_operation("d", "b", &StateValue::Boolean(false));
    let h = enforcer.operation_history();
    assert_eq!(h[0].operation_id, "d::a");
    assert_eq!(h[0].output, "Boolean(true)");
    assert_eq!(h[1].output, "Boolean(false)");
    assert_eq!(h[0].pre_state_hash, 0);
    assert_ne!(h[0].post_state_hash, 0);
    assert_eq!(h[1].pre_state_hash, h[0].post_state_hash);
    assert_ne!(h[1].post_state_hash, h[0].post_state_hash);
    assert_eq!(h[1].timestamp, 12345);
    assert_eq!(enforcer.post_state_hash(), h[1].post_state_hash);
    assert_eq!(enforcer.state_hash, h[1].post_state_hash);
}

#[test]
fn configurations_compatible_cases() {
    let a = vec!["cache_coherency".to_string(), "sse2".to_string()];
    let b = vec!["sse2".to_string()];
    let c = vec!["cache_coherency".to_string(), "avx".to_string()];
    assert!(!configurations_compatible("x86_64-linux", "x86_64", &a, "x86_64-linux", "x86_64", &b));
    assert!(configurations_compatible("x86_64-linux", "x86_64", &a, "x86_64-linux", "x86_64", &c));
    assert!(!configurations_compatible("x86_64-linux", "x86_64", &b, "aarch64-linux", "x86_64", &b));
    assert!(!configurations_compatible("x86_64-linux", "x86_64", &b, "x86_64-linux", "arm", &b));
}

#[test]
fn enforcer_hash_matches_default_hasher() {
    let mut enforcer = DeterminismEnforcer::new();
    let value = StateValue::Integer { value: -3, min: -10, max: 10 };
    enforcer.record_operation("dev", "op", &value);
    let mut hasher = DefaultHasher::new();
    0u64.hash(&mut hasher);
    format!("{:?}", value).hash(&mut hasher);
    assert_eq!(enforcer.state_hash, hasher.finish());
    assert_eq!(enforcer.operation_history()[0].output, format!("{:?}", value));
}

fn hw_config(id: &str, platform: &str, arch: &str, features: &[&str]) -> HardwareConfiguration {
    HardwareConfiguration {
        config_id: id.to_string(),
        platform: platform.to_string(),
        cpu_arch: arch.to_string(),
        features: features.iter().map(|f| f.to_string()).collect(),
    }
}

#[test]
fn hardware_consistency_over_registered_configs() {
    let mut analyzer = HardwareBehaviorAnalyzer::new();
    analyzer.add_hardware_config(hw_config("a", "x86_64-linux", "x86_64", &["cache_coherency", "sse2"]));
    analyzer.add_hardware_config(hw_config("b", "x86_64-linux", "x86_64", &["cache_coherency", "avx"]));
    analyzer.add_hardware_config(hw_config("c", "x86_64-linux", "x86_64", &["sse2"]));
    let ids = |v: &[&str]| v.iter().map(|s| s.to_string()).collect::<Vec<String>>();
    assert_eq!(analyzer.validate_hardware_consistency(&ids(&["a", "b"])).unwrap(), true);
    assert_eq!(analyzer.validate_hardware_consistency(&ids(&["a", "b", "c"])).unwrap(), false);
    assert_eq!(analyzer.validate_hardware_consistency(&ids(&["c"])).unwrap(), true);
    assert_eq!(analyzer.validate_hardware_consistency(&ids(&[])).unwrap(), true);
    let err = analyzer.validate_hardware_consistency(&ids(&["a", "zz", "yy"])).unwrap_err();
    assert_eq!(hardware_message(err), "Hardware configuration 'zz' not found");
    analyzer.add_hardware_config(hw_config("c", "x86_64-linux", "x86_64", &["cache_coherency"]));
    assert_eq!(analyzer.validate_hardware_consistency(&ids(&["a", "c"])).unwrap(), true);
    analyzer.add_hardware_config(hw_config("d", "aarch64-linux", "x86_64", &["cache_coherency"]));
    assert_eq!(analyzer.validate_hardware_consistency(&ids(&["a", "d"])).unwrap(), false);
}
