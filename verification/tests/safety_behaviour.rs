use bonanza_bridge_fw::safety::{
    decode_wire_command, fan_pwm_compare, FaultReason, ProductionVerdict, RuntimeVerdict,
    SafetyConfig, SafetyError, SafetyOutputs, SafetyPolicy, SafetyStage, SafetyState,
    SafetyWireCommand, CAP_FAN_TACH_INTERLOCK, EVIDENCE_CORE_CUTOFF_AVAILABLE,
    EVIDENCE_FAN_TACH_INTERLOCK_AVAILABLE, EVIDENCE_FAULT_CLEAR, EVIDENCE_LEASE_VALID,
    EVIDENCE_OUTPUTS_SAFE, EVIDENCE_TRIP_CLEAR, REQUIRED_PRODUCTION_CAPABILITIES,
};

fn lease_config() -> SafetyConfig {
    SafetyConfig { stage: SafetyStage::Lease, lease_timeout_ms: 1_000, capabilities: 0x000f }
}

#[test]
fn wire_codes_round_trip() {
    for command in [
        SafetyWireCommand::GetStatus,
        SafetyWireCommand::ArmLease,
        SafetyWireCommand::Heartbeat,
        SafetyWireCommand::ClearFault,
        SafetyWireCommand::Disarm,
    ] {
        assert_eq!(decode_wire_command(&[command.code()]), Some(command));
        assert_eq!(decode_wire_command(&[command.code(), command.code()]), None);
    }
    assert_eq!(decode_wire_command(&[0x0f]), None);
    assert_eq!(decode_wire_command(&[0x15]), None);
}

#[test]
fn fan_pwm_compare_is_ten_per_percent() {
    assert_eq!(fan_pwm_compare(1), 10);
    assert_eq!(fan_pwm_compare(37), 370);
    assert_eq!(fan_pwm_compare(255), 1000);
}

#[test]
fn board_intent_inverts_only_the_reset() {
    let outputs = SafetyOutputs { five_volt_enabled: true, asic_reset_asserted: false, fan_percent: 30 };
    let intent = outputs.board_control_intent();
    assert!(intent.five_volt_enable_high);
    assert!(intent.asic_reset_n_high);
    assert_eq!(intent.fan_percent, 30);
    assert!(!outputs.is_safe());
    assert!(SafetyOutputs::safe().is_safe());
}

#[test]
fn stage_enforcement() {
    assert!(!SafetyStage::BootSafe.enforces_lease());
    assert!(!SafetyStage::BootSafe.enforces_trip_latch());
    assert!(SafetyStage::Lease.enforces_lease());
    assert!(!SafetyStage::Lease.enforces_trip_latch());
    assert!(SafetyStage::TripLatch.enforces_lease());
    assert!(SafetyStage::TripLatch.enforces_trip_latch());
}

#[test]
fn lease_stage_requires_ordered_power_up() {
    let mut policy = SafetyPolicy::new(lease_config());
    policy.arm(0).unwrap();
    // Reset cannot be released before 5 V is enabled.
    assert_eq!(policy.request_asic_reset_asserted(false, 1), Err(SafetyError::InvalidSequence));
    policy.request_five_volt_enabled(true, 1).unwrap();
    policy.request_asic_reset_asserted(false, 1).unwrap();
    // With reset released, 5 V cannot be re-enabled out of order.
    assert_eq!(policy.request_five_volt_enabled(true, 2), Err(SafetyError::InvalidSequence));
    // Disabling 5 V restores the whole safe request.
    policy.request_five_volt_enabled(false, 3).unwrap();
    assert_eq!(policy.outputs(), SafetyOutputs::safe());
    assert_eq!(policy.status(3).state, SafetyState::Controlled);
}

#[test]
fn invalid_fan_percent_is_rejected_in_every_state() {
    let mut policy = SafetyPolicy::new(lease_config());
    assert_eq!(policy.request_fan_percent(101, 0), Err(SafetyError::InvalidFanPercent));
    policy.arm(0).unwrap();
    assert_eq!(policy.request_fan_percent(200, 0), Err(SafetyError::InvalidFanPercent));
    assert_eq!(policy.outputs(), SafetyOutputs::safe());
}

#[test]
fn unsafe_request_after_deadline_latches_lease_expired() {
    let mut policy = SafetyPolicy::new(lease_config());
    policy.arm(0).unwrap();
    // The request's own tick sees the expired lease first.
    assert_eq!(policy.request_fan_percent(50, 1_000), Err(SafetyError::FaultLatched));
    assert_eq!(policy.status(1_000).fault, FaultReason::LeaseExpired);
    assert_eq!(policy.arm(1_001), Err(SafetyError::FaultLatched));
    policy.clear_fault(1_002).unwrap();
    assert_eq!(policy.status(1_002).state, SafetyState::SafeOff);
    assert_eq!(policy.status(1_002).fault, FaultReason::NoFault);
    policy.arm(1_003).unwrap();
    assert_eq!(policy.status(1_003).lease_remaining_ms, 1_000);
}

#[test]
fn boot_safe_stage_has_no_lease_and_never_latches() {
    let mut policy = SafetyPolicy::new(SafetyConfig {
        stage: SafetyStage::BootSafe,
        lease_timeout_ms: 10,
        capabilities: 0,
    });
    policy.arm(0).unwrap();
    assert_eq!(policy.status(0).lease_remaining_ms, 0);
    policy.tick(1_000_000, true);
    let status = policy.status(1_000_000);
    assert_eq!(status.state, SafetyState::Controlled);
    assert_eq!(status.fault, FaultReason::NoFault);
    assert_eq!(status.runtime_verdict, RuntimeVerdict::BadTripInput);
    assert_eq!(status.production_verdict, ProductionVerdict::BadStageDisabled);
    assert_eq!(policy.heartbeat(1_000_001), Ok(()));
}

#[test]
fn lease_deadline_saturates() {
    let mut policy = SafetyPolicy::new(SafetyConfig {
        stage: SafetyStage::Lease,
        lease_timeout_ms: u32::MAX,
        capabilities: 0,
    });
    policy.arm(u64::MAX - 5).unwrap();
    assert_eq!(policy.status(u64::MAX - 5).lease_remaining_ms, 5);
    policy.arm(0).unwrap();
    assert_eq!(policy.status(0).lease_remaining_ms, u32::MAX);
}

#[test]
fn evidence_bits_follow_the_state() {
    let mut policy = SafetyPolicy::new(SafetyConfig {
        stage: SafetyStage::TripLatch,
        lease_timeout_ms: 1_000,
        capabilities: CAP_FAN_TACH_INTERLOCK,
    });
    let evidence = policy.status(0).evidence;
    // Safe outputs, trip clear, fault clear; no lease is valid in safe-off.
    assert_eq!(
        evidence,
        EVIDENCE_OUTPUTS_SAFE | EVIDENCE_TRIP_CLEAR | EVIDENCE_FAULT_CLEAR | EVIDENCE_FAN_TACH_INTERLOCK_AVAILABLE
    );
    policy.arm(0).unwrap();
    assert_ne!(policy.status(0).evidence & EVIDENCE_LEASE_VALID, 0);
    policy.request_five_volt_enabled(true, 0).unwrap();
    assert_eq!(policy.status(0).evidence & EVIDENCE_OUTPUTS_SAFE, 0);
    assert_eq!(policy.status(0).evidence & EVIDENCE_CORE_CUTOFF_AVAILABLE, 0);
    policy.tick(5, true);
    let status = policy.status(5);
    assert_eq!(status.evidence, EVIDENCE_OUTPUTS_SAFE | EVIDENCE_FAN_TACH_INTERLOCK_AVAILABLE);
    assert_eq!(status.runtime_verdict, RuntimeVerdict::BadFault);
}

#[test]
fn expired_but_unticked_lease_reports_bad_lease() {
    let mut policy = SafetyPolicy::new(SafetyConfig {
        stage: SafetyStage::TripLatch,
        lease_timeout_ms: 1_000,
        capabilities: REQUIRED_PRODUCTION_CAPABILITIES,
    });
    policy.arm(0).unwrap();
    let status = policy.status(1_000);
    assert_eq!(status.state, SafetyState::Controlled);
    assert_eq!(status.runtime_verdict, RuntimeVerdict::BadLease);
    assert_eq!(status.production_verdict, ProductionVerdict::BadRuntime);
    assert_eq!(policy.status(999).production_verdict, ProductionVerdict::Good);
}

#[test]
fn encoded_status_of_a_latched_trip() {
    let mut policy = SafetyPolicy::new(SafetyConfig::firmware());
    policy.tick(7, true);
    let encoded = policy.status(7).encode();
    assert_eq!(encoded.len(), 17);
    assert_eq!(&encoded[..6], &[1, 2, 2, 2, 0x80, 0x82]);
    assert_eq!(&encoded[6..8], &[0x8f, 0x00]);
    // Only the independent-hardware evidence could be set, and none is.
    assert_eq!(&encoded[8..10], &[0x01, 0x00]);
    assert_eq!(&encoded[10..14], &[0, 0, 0, 0]);
    assert_eq!(&encoded[14..], &[0b0000_0110, 100, 1]);
    assert_eq!(policy.clear_fault(8), Err(SafetyError::TripActive));
}

#[test]
fn firmware_policy_reports_the_capability_gap_while_healthy() {
    let mut policy = SafetyPolicy::new(SafetyConfig::firmware());
    assert_eq!(policy.status(0).production_verdict, ProductionVerdict::BadCapabilityGap);
    policy.arm(0).unwrap();
    policy.request_five_volt_enabled(true, 1).unwrap();
    policy.request_asic_reset_asserted(false, 2).unwrap();
    let status = policy.status(3);
    assert_eq!(status.runtime_verdict, RuntimeVerdict::GoodControlled);
    assert_eq!(status.production_verdict, ProductionVerdict::BadCapabilityGap);
    assert_eq!(status.lease_remaining_ms, 1_997);
    policy.heartbeat(1_500).unwrap();
    assert_eq!(policy.status(1_500).lease_remaining_ms, 2_000);
}
