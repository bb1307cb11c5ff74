use bonanza_bridge_fw::safety::{
    decode_wire_command, fan_pwm_compare, FaultReason, ProductionVerdict, RuntimeVerdict,
    SafetyConfig, SafetyError, SafetyOutputs, SafetyPolicy, SafetyStage, SafetyState,
    SafetyWireCommand, CAP_ASIC_RESET_CONTROL, CAP_CORE_POWER_CUTOFF, CAP_FAN_CONTROLLED_SPEED,
    CAP_FAN_FORCE_FULL, CAP_FAN_TACH_INTERLOCK, CAP_FIVE_VOLT_CONTROL,
    CAP_INDEPENDENT_TRIP_MONITOR, CAP_TRIP_INPUT_SAMPLED, EVIDENCE_OUTPUTS_SAFE,
    PRODUCTION_LEASE_TIMEOUT_MS, REQUIRED_PRODUCTION_CAPABILITIES, SAFETY_STATUS_ENCODED_LEN,
    SAFETY_STATUS_SCHEMA_VERSION,
};

const IMPLEMENTED_CAPABILITIES: u16 = CAP_FIVE_VOLT_CONTROL
    | CAP_ASIC_RESET_CONTROL
    | CAP_FAN_FORCE_FULL
    | CAP_TRIP_INPUT_SAMPLED
    | CAP_FAN_CONTROLLED_SPEED;

fn config(stage: SafetyStage) -> SafetyConfig {
    SafetyConfig { stage, lease_timeout_ms: 1_000, capabilities: IMPLEMENTED_CAPABILITIES }
}

#[test]
fn every_stage_starts_with_semantic_safe_outputs() {
    for stage in [SafetyStage::BootSafe, SafetyStage::Lease, SafetyStage::TripLatch] {
        let policy = SafetyPolicy::new(config(stage));
        let status = policy.status(0);

        assert_eq!(status.state, SafetyState::SafeOff);
        assert_eq!(status.outputs, SafetyOutputs::safe());
        assert_eq!(status.runtime_verdict, RuntimeVerdict::GoodSafeOff);
        assert_ne!(status.evidence & EVIDENCE_OUTPUTS_SAFE, 0);
    }
}

#[test]
fn safe_semantics_map_to_low_enable_low_reset_n_and_full_fan() {
    let intent = SafetyOutputs::safe().board_control_intent();

    assert!(!intent.five_volt_enable_high);
    assert!(!intent.asic_reset_n_high);
    assert_eq!(intent.fan_percent, 100);
    assert_eq!(fan_pwm_compare(intent.fan_percent), 1000);
    assert_eq!(fan_pwm_compare(0), 0);
    assert_eq!(fan_pwm_compare(101), 1000);
}

#[test]
fn firmware_configuration_is_fixed_and_does_not_claim_hardware_gates() {
    let config = SafetyConfig::firmware();

    assert_eq!(config.stage, SafetyStage::TripLatch);
    assert_eq!(config.lease_timeout_ms, PRODUCTION_LEASE_TIMEOUT_MS);
    assert_eq!(config.capabilities, IMPLEMENTED_CAPABILITIES);
    assert_eq!(config.capabilities & REQUIRED_PRODUCTION_CAPABILITIES, IMPLEMENTED_CAPABILITIES);
}

#[test]
fn boot_safe_stage_retains_legacy_control_after_safe_boot() {
    let mut policy = SafetyPolicy::new(config(SafetyStage::BootSafe));

    policy.request_asic_reset_asserted(false, 0).unwrap();
    policy.request_fan_percent(50, 0).unwrap();
    policy.request_five_volt_enabled(true, 0).unwrap();
    assert_eq!(
        policy.outputs(),
        SafetyOutputs { five_volt_enabled: true, asic_reset_asserted: false, fan_percent: 50 }
    );

    policy.request_five_volt_enabled(false, 1).unwrap();
    assert_eq!(policy.outputs(), SafetyOutputs::safe());
}

#[test]
fn lease_stage_rejects_unsafe_changes_until_armed() {
    let mut policy = SafetyPolicy::new(config(SafetyStage::Lease));

    assert_eq!(policy.request_five_volt_enabled(true, 1), Err(SafetyError::LeaseRequired));
    policy.arm(10).unwrap();
    assert_eq!(policy.status(10).lease_remaining_ms, 1_000);
    policy.request_five_volt_enabled(true, 10).unwrap();
    policy.request_asic_reset_asserted(false, 10).unwrap();
    assert_eq!(policy.status(10).runtime_verdict, RuntimeVerdict::GoodControlled);
}

#[test]
fn heartbeat_extends_the_lease_and_expiry_latches_safe_outputs() {
    let mut policy = SafetyPolicy::new(config(SafetyStage::Lease));
    policy.arm(100).unwrap();
    policy.request_five_volt_enabled(true, 100).unwrap();
    policy.request_asic_reset_asserted(false, 100).unwrap();
    policy.request_fan_percent(40, 100).unwrap();
    assert_eq!(policy.outputs().fan_percent, 40);

    policy.heartbeat(900).unwrap();
    policy.tick(1_899, false);
    assert_eq!(policy.status(1_899).state, SafetyState::Controlled);

    policy.tick(1_900, false);
    let status = policy.status(1_900);
    assert_eq!(status.state, SafetyState::FaultLatched);
    assert_eq!(status.fault, FaultReason::LeaseExpired);
    assert_eq!(status.outputs, SafetyOutputs::safe());
    assert_eq!(status.runtime_verdict, RuntimeVerdict::BadFault);
    assert_eq!(policy.heartbeat(1_901), Err(SafetyError::FaultLatched));
}

#[test]
fn disarm_is_a_clean_safe_off_but_does_not_erase_a_fault() {
    let mut policy = SafetyPolicy::new(config(SafetyStage::Lease));
    policy.arm(0).unwrap();
    policy.request_five_volt_enabled(true, 0).unwrap();
    policy.request_asic_reset_asserted(false, 0).unwrap();

    policy.disarm();
    let status = policy.status(1);
    assert_eq!(status.state, SafetyState::SafeOff);
    assert_eq!(status.fault, FaultReason::NoFault);
    assert_eq!(status.outputs, SafetyOutputs::safe());
    assert_eq!(policy.heartbeat(1), Err(SafetyError::LeaseRequired));

    policy.arm(2).unwrap();
    policy.tick(1_002, false);
    policy.disarm();
    assert_eq!(policy.status(1_003).state, SafetyState::FaultLatched);
    assert_eq!(policy.status(1_003).fault, FaultReason::LeaseExpired);
}

#[test]
fn trip_is_visible_before_enforcement_and_latched_at_stage_two() {
    let mut observe_only = SafetyPolicy::new(config(SafetyStage::Lease));
    observe_only.tick(0, true);
    assert_eq!(observe_only.status(0).fault, FaultReason::NoFault);
    assert_eq!(observe_only.status(0).runtime_verdict, RuntimeVerdict::BadTripInput);

    let mut enforced = SafetyPolicy::new(config(SafetyStage::TripLatch));
    enforced.arm(0).unwrap();
    enforced.request_five_volt_enabled(true, 0).unwrap();
    enforced.tick(1, true);
    let status = enforced.status(1);
    assert_eq!(status.fault, FaultReason::AsicTrip);
    assert_eq!(status.outputs, SafetyOutputs::safe());
    assert_eq!(enforced.clear_fault(2), Err(SafetyError::TripActive));

    enforced.tick(3, false);
    enforced.clear_fault(3).unwrap();
    assert_eq!(enforced.status(3).state, SafetyState::SafeOff);
    assert_eq!(enforced.status(3).outputs, SafetyOutputs::safe());
}

#[test]
fn safe_requests_remain_available_while_fault_latched() {
    let mut policy = SafetyPolicy::new(config(SafetyStage::Lease));
    policy.arm(0).unwrap();
    policy.request_five_volt_enabled(true, 0).unwrap();
    policy.tick(1_000, false);

    policy.request_asic_reset_asserted(true, 1_001).unwrap();
    policy.request_five_volt_enabled(false, 1_001).unwrap();
    policy.request_fan_percent(100, 1_001).unwrap();
    assert_eq!(policy.outputs(), SafetyOutputs::safe());
}

#[test]
fn full_fan_is_required_before_power_but_control_is_allowed_while_running() {
    let mut policy = SafetyPolicy::new(config(SafetyStage::Lease));

    policy.arm(0).unwrap();
    policy.request_fan_percent(50, 0).unwrap();
    assert_eq!(policy.request_five_volt_enabled(true, 0), Err(SafetyError::FanNotSafe));
    policy.request_fan_percent(100, 0).unwrap();
    policy.request_five_volt_enabled(true, 0).unwrap();
    policy.request_asic_reset_asserted(false, 0).unwrap();
    policy.request_fan_percent(50, 0).unwrap();
    assert_eq!(policy.outputs().fan_percent, 50);

    policy.disarm();
    assert_eq!(policy.outputs(), SafetyOutputs::safe());
}

#[test]
fn current_firmware_capabilities_are_explicitly_not_production_ready() {
    let policy = SafetyPolicy::new(config(SafetyStage::TripLatch));
    let status = policy.status(0);

    assert_eq!(status.production_verdict, ProductionVerdict::BadCapabilityGap);
    assert_eq!(status.capabilities & CAP_CORE_POWER_CUTOFF, 0);
    assert_eq!(status.capabilities & CAP_FAN_TACH_INTERLOCK, 0);
    assert_eq!(status.capabilities & CAP_INDEPENDENT_TRIP_MONITOR, 0);
}

#[test]
fn production_verdict_requires_stage_capabilities_and_good_runtime() {
    let ready_config = SafetyConfig {
        stage: SafetyStage::TripLatch,
        lease_timeout_ms: 1_000,
        capabilities: REQUIRED_PRODUCTION_CAPABILITIES,
    };
    let mut policy = SafetyPolicy::new(ready_config);
    assert_eq!(policy.status(0).production_verdict, ProductionVerdict::Good);

    policy.tick(1, true);
    assert_eq!(policy.status(1).production_verdict, ProductionVerdict::BadRuntime);
}

#[test]
fn safety_status_encoding_is_fixed_and_self_describing() {
    let mut policy = SafetyPolicy::new(config(SafetyStage::Lease));
    policy.arm(100).unwrap();
    let status = policy.status(125);
    let encoded = status.encode();

    assert_eq!(encoded.len(), SAFETY_STATUS_ENCODED_LEN);
    assert_eq!(encoded[0], SAFETY_STATUS_SCHEMA_VERSION);
    assert_eq!(encoded[1], SafetyStage::Lease.code());
    assert_eq!(encoded[2], SafetyState::Controlled.code());
    assert_eq!(encoded[3], FaultReason::NoFault.code());
    assert_eq!(encoded[4], RuntimeVerdict::GoodControlled.code());
    assert_eq!(encoded[5], ProductionVerdict::BadStageDisabled.code());
    assert_eq!(u16::from_le_bytes([encoded[6], encoded[7]]), IMPLEMENTED_CAPABILITIES);
    assert_eq!(u32::from_le_bytes(encoded[10..14].try_into().unwrap()), 975);
    assert_eq!(encoded[14], 0b0000_0110);
    assert_eq!(encoded[15], 100);
    assert_eq!(encoded[16], 0);
}

#[test]
fn safety_wire_commands_are_exact_and_reject_trailing_data() {
    assert_eq!(decode_wire_command(&[0x10]), Some(SafetyWireCommand::GetStatus));
    assert_eq!(decode_wire_command(&[0x11]), Some(SafetyWireCommand::ArmLease));
    assert_eq!(decode_wire_command(&[0x12]), Some(SafetyWireCommand::Heartbeat));
    assert_eq!(decode_wire_command(&[0x13]), Some(SafetyWireCommand::ClearFault));
    assert_eq!(decode_wire_command(&[0x14]), Some(SafetyWireCommand::Disarm));
    assert_eq!(decode_wire_command(&[]), None);
    assert_eq!(decode_wire_command(&[0x10, 0x00]), None);
    assert_eq!(decode_wire_command(&[0xff]), None);
}
