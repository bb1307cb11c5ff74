//! What the interlock guarantees across its operations, proved over the
//! abstract [`PolicyState`] that every [`crate::safety::SafetyPolicy`]
//! method's contract is stated in.
use vstd::prelude::*;

use crate::{le_bytes_u16, le_bytes_u32, le_value, lemma_le_bytes_round_trip};
use crate::safety::{
    evidence_bit, lease_deadline_after, PolicyState, SafetyConfig, SafetyError, SafetyOutputs,
    SafetyStage, SafetyStatus, CAP_ASIC_RESET_CONTROL, CAP_CORE_POWER_CUTOFF,
    CAP_FAN_CONTROLLED_SPEED, CAP_FAN_FORCE_FULL, CAP_FAN_TACH_INTERLOCK, CAP_FIVE_VOLT_CONTROL,
    CAP_INDEPENDENT_TRIP_MONITOR, CAP_TRIP_INPUT_SAMPLED, EVIDENCE_CORE_CUTOFF_AVAILABLE, EVIDENCE_FAN_TACH_INTERLOCK_AVAILABLE,
    EVIDENCE_FAULT_CLEAR, EVIDENCE_INDEPENDENT_TRIP_MONITOR_AVAILABLE, EVIDENCE_LEASE_VALID,
    EVIDENCE_OUTPUTS_SAFE, EVIDENCE_TRIP_CLEAR, PRODUCTION_LEASE_TIMEOUT_MS,
    REQUIRED_PRODUCTION_CAPABILITIES, SAFETY_STATUS_ENCODED_LEN, SAFETY_STATUS_SCHEMA_VERSION,
};

verus! {

/// Every stage boots into safe-off with the safe request, no fault and no
/// lease, and reports a good safe-off runtime verdict.
pub proof fn lemma_boot_is_safe(config: SafetyConfig, now_ms: u64)
    ensures
        PolicyState::initial(config).inv(),
        PolicyState::initial(config).state is SafeOff,
        PolicyState::initial(config).effective_outputs() == SafetyOutputs::safe(),
        PolicyState::initial(config).effective_outputs().is_safe(),
        PolicyState::initial(config).status_at(now_ms).runtime_verdict is GoodSafeOff,
{
}

/// Every operation keeps the state invariant.
pub proof fn lemma_operations_preserve_invariant(
    s: PolicyState,
    now_ms: u64,
    trip_input_asserted: bool,
    flag: bool,
    percent: u8,
)
    requires
        s.inv(),
    ensures
        s.after_tick(now_ms, trip_input_asserted).inv(),
        s.arm_outcome(now_ms).0.inv(),
        s.heartbeat_outcome(now_ms).0.inv(),
        s.five_volt_outcome(flag, now_ms).0.inv(),
        s.asic_reset_outcome(flag, now_ms).0.inv(),
        s.fan_outcome(percent, now_ms).0.inv(),
        s.clear_fault_outcome().0.inv(),
        s.disarmed().inv(),
{
    let t = s.advanced(now_ms);
    assert(t.inv());
    assert(t.admit_unsafe_request(now_ms).0.inv());
}

/// Outside a controlled session the effective outputs are the safe request,
/// so the status never reports unsafe outputs in safe-off; and where the
/// lease is enforced, the effective outputs release reset only with 5 V
/// enabled. In particular ASIC RX forwarding, which needs 5 V enabled and
/// reset released, happens only inside a controlled session.
pub proof fn lemma_only_a_controlled_session_drives_unsafe_outputs(s: PolicyState, now_ms: u64)
    requires
        s.inv(),
    ensures
        !(s.state is Controlled) ==> s.effective_outputs() == SafetyOutputs::safe(),
        s.effective_outputs().five_volt_enabled && !s.effective_outputs().asic_reset_asserted
            ==> s.state is Controlled,
        s.is_faulted() ==> s.effective_outputs() == SafetyOutputs::safe(),
        s.config.stage.enforces_lease() && !s.effective_outputs().asic_reset_asserted
            ==> s.effective_outputs().five_volt_enabled,
        !(s.status_at(now_ms).runtime_verdict is BadUnsafeOutputs),
{
}

/// Where the lease is enforced, every request that moves away from safety
/// is granted only inside a controlled session with a live lease, and only
/// in order: 5 V after the fan is at 100 percent and reset is asserted,
/// reset release after 5 V. In safe-off such requests are refused with
/// `LeaseRequired` and change nothing but the trip sample.
pub proof fn lemma_lease_gates_unsafe_requests(s: PolicyState, now_ms: u64, percent: u8)
    requires
        s.config.stage.enforces_lease(),
        percent < 100,
    ensures
        ({
            let t = s.advanced(now_ms);
            &&& s.five_volt_outcome(true, now_ms).1 is Ok ==> {
                &&& t.state is Controlled
                &&& t.lease_live_at(now_ms)
                &&& t.requested_outputs.fan_percent == 100
                &&& t.requested_outputs.asic_reset_asserted
            }
            &&& s.asic_reset_outcome(false, now_ms).1 is Ok ==> {
                &&& t.state is Controlled
                &&& t.lease_live_at(now_ms)
                &&& t.requested_outputs.five_volt_enabled
            }
            &&& s.fan_outcome(percent, now_ms).1 is Ok ==> {
                &&& t.state is Controlled
                &&& t.lease_live_at(now_ms)
            }
            &&& t.state is SafeOff ==> {
                &&& s.five_volt_outcome(true, now_ms) == (t, Err::<(), SafetyError>(
                    SafetyError::LeaseRequired,
                ))
                &&& s.asic_reset_outcome(false, now_ms) == (t, Err::<(), SafetyError>(
                    SafetyError::LeaseRequired,
                ))
                &&& s.fan_outcome(percent, now_ms) == (t, Err::<(), SafetyError>(
                    SafetyError::LeaseRequired,
                ))
            }
        }),
{
}

/// Requests that move toward safety are always granted, whatever the state:
/// disabling 5 V (which also asserts reset and restores the full fan),
/// asserting reset, and the full fan.
pub proof fn lemma_safe_requests_are_always_granted(s: PolicyState, now_ms: u64)
    ensures
        s.five_volt_outcome(false, now_ms).1 is Ok,
        s.five_volt_outcome(false, now_ms).0.requested_outputs == SafetyOutputs::safe(),
        s.asic_reset_outcome(true, now_ms).1 is Ok,
        s.asic_reset_outcome(true, now_ms).0.requested_outputs.asic_reset_asserted,
        s.fan_outcome(100, now_ms).1 is Ok,
        s.fan_outcome(100, now_ms).0.requested_outputs.fan_percent == 100,
{
}

/// `ARM` fails exactly when a fault is latched; otherwise it starts a
/// controlled session from the safe request, with a lease of the configured
/// timeout where the stage enforces one.
pub proof fn lemma_arm_starts_from_the_safe_request(s: PolicyState, now_ms: u64)
    requires
        s.inv(),
    ensures
        ({
            let (armed, result) = s.arm_outcome(now_ms);
            &&& result == (if s.advanced(now_ms).is_faulted() {
                Err::<(), SafetyError>(SafetyError::FaultLatched)
            } else {
                Ok::<(), SafetyError>(())
            })
            &&& result is Ok ==> {
                &&& armed.state is Controlled
                &&& armed.fault is NoFault
                &&& armed.effective_outputs() == SafetyOutputs::safe()
                &&& armed.lease_deadline_ms == (if s.config.stage.enforces_lease() {
                    Some(lease_deadline_after(now_ms, s.config.lease_timeout_ms))
                } else {
                    None::<u64>
                })
            }
        }),
{
    assert(s.advanced(now_ms).inv()) by {
        lemma_operations_preserve_invariant(s, now_ms, s.trip_input_asserted, true, 100);
    }
}

/// A latched fault survives everything but `CLEAR_FAULT`: time, trip
/// samples, `ARM`, `HEARTBEAT`, every request and `DISARM` keep the state
/// latched with the same reason and the safe outputs, and `ARM` and
/// `HEARTBEAT` report `FaultLatched`.
pub proof fn lemma_only_clear_fault_releases_a_latched_fault(
    s: PolicyState,
    now_ms: u64,
    trip_input_asserted: bool,
    flag: bool,
    percent: u8,
)
    requires
        s.is_faulted(),
    ensures
        s.after_tick(now_ms, trip_input_asserted).is_faulted(),
        s.after_tick(now_ms, trip_input_asserted).fault == s.fault,
        s.arm_outcome(now_ms).0.is_faulted(),
        s.arm_outcome(now_ms).0.fault == s.fault,
        s.arm_outcome(now_ms).1 == Err::<(), SafetyError>(SafetyError::FaultLatched),
        s.heartbeat_outcome(now_ms).0.is_faulted(),
        s.heartbeat_outcome(now_ms).0.fault == s.fault,
        s.heartbeat_outcome(now_ms).1 == Err::<(), SafetyError>(SafetyError::FaultLatched),
        s.five_volt_outcome(flag, now_ms).0.is_faulted(),
        s.five_volt_outcome(flag, now_ms).0.fault == s.fault,
        s.asic_reset_outcome(flag, now_ms).0.is_faulted(),
        s.asic_reset_outcome(flag, now_ms).0.fault == s.fault,
        s.fan_outcome(percent, now_ms).0.is_faulted(),
        s.fan_outcome(percent, now_ms).0.fault == s.fault,
        s.disarmed().fault == s.fault,
        !(s.fault is NoFault) ==> s.disarmed().is_faulted(),
        s.five_volt_outcome(flag, now_ms).0.effective_outputs() == SafetyOutputs::safe(),
        s.asic_reset_outcome(flag, now_ms).0.effective_outputs() == SafetyOutputs::safe(),
        s.fan_outcome(percent, now_ms).0.effective_outputs() == SafetyOutputs::safe(),
{
}

/// A controlled session whose lease is enforced latches `LeaseExpired` and
/// the safe outputs at the first sample at or after its deadline, and stays
/// controlled before it (absent an enforced trip).
pub proof fn lemma_lease_expiry_latches_safe_outputs(s: PolicyState, now_ms: u64, deadline: u64)
    requires
        s.state is Controlled,
        s.config.stage.enforces_lease(),
        s.lease_deadline_ms == Some(deadline),
    ensures
        now_ms >= deadline && !s.config.stage.enforces_trip_latch() ==> {
            &&& s.after_tick(now_ms, true).fault is LeaseExpired
            &&& s.after_tick(now_ms, true).effective_outputs() == SafetyOutputs::safe()
        },
        now_ms >= deadline ==> {
            &&& s.after_tick(now_ms, false).is_faulted()
            &&& s.after_tick(now_ms, false).fault is LeaseExpired
            &&& s.after_tick(now_ms, false).effective_outputs() == SafetyOutputs::safe()
        },
        now_ms < deadline ==> s.after_tick(now_ms, false).state is Controlled,
{
}

/// Where the stage enforces the trip latch, an asserted trip latches
/// `AsicTrip` and the safe outputs; elsewhere the trip is only recorded and
/// changes nothing else.
pub proof fn lemma_trip_latches_only_where_enforced(s: PolicyState, now_ms: u64)
    ensures
        s.config.stage.enforces_trip_latch() && !s.is_faulted() ==> {
            &&& s.after_tick(now_ms, true).is_faulted()
            &&& s.after_tick(now_ms, true).fault is AsicTrip
            &&& s.after_tick(now_ms, true).effective_outputs() == SafetyOutputs::safe()
        },
        !s.config.stage.enforces_trip_latch() ==> s.after_tick(now_ms, true) == (PolicyState {
            trip_input_asserted: true,
            ..s.after_tick(now_ms, false)
        }),
{
}

/// The evidence bits record their conditions one bit each: outputs safe,
/// lease valid, trip clear, fault clear, and the three independent hardware
/// capabilities; no other bit is ever set.
pub proof fn lemma_evidence_bits(c0: bool, c1: bool, c2: bool, c3: bool, c4: bool, c5: bool, c6: bool)
    by (bit_vector)
    ensures
        ({
            let e = evidence_bit(c0, EVIDENCE_OUTPUTS_SAFE) | evidence_bit(c1, EVIDENCE_LEASE_VALID)
                | evidence_bit(c2, EVIDENCE_TRIP_CLEAR) | evidence_bit(c3, EVIDENCE_FAULT_CLEAR)
                | evidence_bit(c4, EVIDENCE_CORE_CUTOFF_AVAILABLE) | evidence_bit(
                c5,
                EVIDENCE_FAN_TACH_INTERLOCK_AVAILABLE,
            ) | evidence_bit(c6, EVIDENCE_INDEPENDENT_TRIP_MONITOR_AVAILABLE);
            &&& (e & EVIDENCE_OUTPUTS_SAFE != 0) == c0
            &&& (e & EVIDENCE_LEASE_VALID != 0) == c1
            &&& (e & EVIDENCE_TRIP_CLEAR != 0) == c2
            &&& (e & EVIDENCE_FAULT_CLEAR != 0) == c3
            &&& (e & EVIDENCE_CORE_CUTOFF_AVAILABLE != 0) == c4
            &&& (e & EVIDENCE_FAN_TACH_INTERLOCK_AVAILABLE != 0) == c5
            &&& (e & EVIDENCE_INDEPENDENT_TRIP_MONITOR_AVAILABLE != 0) == c6
            &&& e & 0xff80 == 0
        }),
{
}

/// The status is coherent: a good runtime verdict means no fault and the
/// trip clear, good safe-off means safe outputs, a latched fault reports
/// `BadFault` with safe outputs, and a good production verdict needs the
/// trip-latch stage, a good runtime verdict and every required capability.
/// The outputs-safe and fault-clear evidence bits agree with the state.
pub proof fn lemma_status_is_coherent(s: PolicyState, now_ms: u64)
    requires
        s.inv(),
    ensures
        ({
            let status = s.status_at(now_ms);
            &&& (status.runtime_verdict is GoodSafeOff || status.runtime_verdict is GoodControlled)
                ==> status.fault is NoFault && !status.trip_input_asserted
            &&& status.runtime_verdict is GoodSafeOff ==> status.state is SafeOff
                && status.outputs.is_safe()
            &&& status.runtime_verdict is GoodControlled ==> status.state is Controlled
            &&& status.state is FaultLatched ==> status.runtime_verdict is BadFault
                && status.outputs == SafetyOutputs::safe()
            &&& status.production_verdict is Good ==> {
                &&& status.stage is TripLatch
                &&& (status.runtime_verdict is GoodSafeOff
                    || status.runtime_verdict is GoodControlled)
                &&& status.capabilities & REQUIRED_PRODUCTION_CAPABILITIES
                    == REQUIRED_PRODUCTION_CAPABILITIES
            }
            &&& (status.evidence & EVIDENCE_OUTPUTS_SAFE != 0) == status.outputs.is_safe()
            &&& (status.evidence & EVIDENCE_FAULT_CLEAR != 0) == (status.fault is NoFault)
            &&& (status.evidence & EVIDENCE_TRIP_CLEAR != 0) == !status.trip_input_asserted
        }),
{
    lemma_evidence_bits(
        s.effective_outputs().is_safe(),
        s.lease_valid_at(now_ms),
        !s.trip_input_asserted,
        s.fault is NoFault,
        s.config.capabilities & CAP_CORE_POWER_CUTOFF != 0,
        s.config.capabilities & CAP_FAN_TACH_INTERLOCK != 0,
        s.config.capabilities & CAP_INDEPENDENT_TRIP_MONITOR != 0,
    );
}

/// The production configuration enforces both the lease and the trip latch,
/// and, lacking the independent hardware capabilities, its production
/// verdict is never `Good`: with a good runtime verdict it is
/// `BadCapabilityGap`.
pub proof fn lemma_firmware_reports_the_capability_gap(s: PolicyState, now_ms: u64)
    requires
        s.config == (SafetyConfig {
            stage: SafetyStage::TripLatch,
            lease_timeout_ms: PRODUCTION_LEASE_TIMEOUT_MS,
            capabilities: CAP_FIVE_VOLT_CONTROL | CAP_ASIC_RESET_CONTROL | CAP_FAN_FORCE_FULL
                | CAP_TRIP_INPUT_SAMPLED | CAP_FAN_CONTROLLED_SPEED,
        }),
    ensures
        s.config.stage.enforces_lease(),
        s.config.stage.enforces_trip_latch(),
        !(s.status_at(now_ms).production_verdict is Good),
        (s.status_at(now_ms).runtime_verdict is GoodSafeOff
            || s.status_at(now_ms).runtime_verdict is GoodControlled)
            ==> s.status_at(now_ms).production_verdict is BadCapabilityGap,
{
    let caps = s.config.capabilities;
    assert(caps & REQUIRED_PRODUCTION_CAPABILITIES != REQUIRED_PRODUCTION_CAPABILITIES) by (bit_vector)
        requires
            caps == 0x0001u16 | 0x0002u16 | 0x0004u16 | 0x0008u16 | 0x0080u16,
            REQUIRED_PRODUCTION_CAPABILITIES == 0x0001u16 | 0x0002u16 | 0x0004u16 | 0x0008u16
                | 0x0010u16 | 0x0020u16 | 0x0040u16 | 0x0080u16,
    ;
}

/// The status payload is fixed-width and self-describing: 17 bytes, each
/// field at its documented offset, multi-byte fields reading back little
/// endian as the value reported.
pub proof fn lemma_status_payload_layout(status: SafetyStatus)
    ensures
        ({
            let b = status.wire_bytes();
            &&& b.len() == SAFETY_STATUS_ENCODED_LEN
            &&& b[0] == SAFETY_STATUS_SCHEMA_VERSION
            &&& b[1] == status.stage.code()
            &&& b[2] == status.state.code()
            &&& b[3] == status.fault.code()
            &&& b[4] == status.runtime_verdict.code()
            &&& b[5] == status.production_verdict.code()
            &&& le_value(b.subrange(6, 8)) == status.capabilities
            &&& le_value(b.subrange(8, 10)) == status.evidence
            &&& le_value(b.subrange(10, 14)) == status.lease_remaining_ms
            &&& b[14] == status.outputs.command_flags()
            &&& b[15] == status.outputs.fan_percent
            &&& b[16] == (if status.trip_input_asserted {
                1u8
            } else {
                0u8
            })
        }),
{
    let b = status.wire_bytes();
    assert(b.subrange(6, 8) =~= le_bytes_u16(status.capabilities));
    assert(b.subrange(8, 10) =~= le_bytes_u16(status.evidence));
    assert(b.subrange(10, 14) =~= le_bytes_u32(status.lease_remaining_ms));
    lemma_le_bytes_round_trip(status.capabilities, status.lease_remaining_ms);
    lemma_le_bytes_round_trip(status.evidence, 0);
}

/// The command-flags byte holds one bit per fact and nothing else: bit 0 is
/// set exactly when 5 V is enabled, bit 1 exactly when reset is asserted,
/// bit 2 exactly when the fan is at 100 percent.
pub proof fn lemma_command_flags_bits(outputs: SafetyOutputs)
    ensures
        (outputs.command_flags() & 1 != 0) == outputs.five_volt_enabled,
        (outputs.command_flags() & 2 != 0) == outputs.asic_reset_asserted,
        (outputs.command_flags() & 4 != 0) == (outputs.fan_percent == 100),
        outputs.command_flags() & 0xf8 == 0,
{
    let flags = outputs.command_flags();
    let five = outputs.five_volt_enabled;
    let reset = outputs.asic_reset_asserted;
    let full = outputs.fan_percent == 100;
    assert({
        &&& (flags & 1 != 0) == five
        &&& (flags & 2 != 0) == reset
        &&& (flags & 4 != 0) == full
        &&& flags & 0xf8 == 0
    }) by (bit_vector)
        requires
            flags == (if five {
                1u8
            } else {
                0u8
            }) | (if reset {
                2u8
            } else {
                0u8
            }) | (if full {
                4u8
            } else {
                0u8
            }),
    ;
}

/// Byte 14 of the status payload reports the effective commands bit by bit,
/// and byte 16 the trip sample as `0` or `1`.
pub proof fn lemma_status_payload_command_bits(status: SafetyStatus)
    ensures
        (status.wire_bytes()[14] & 1 != 0) == status.outputs.five_volt_enabled,
        (status.wire_bytes()[14] & 2 != 0) == status.outputs.asic_reset_asserted,
        (status.wire_bytes()[14] & 4 != 0) == (status.outputs.fan_percent == 100),
        status.wire_bytes()[14] & 0xf8 == 0,
        status.wire_bytes()[16] == 1 <==> status.trip_input_asserted,
        status.wire_bytes()[16] <= 1,
{
    lemma_status_payload_layout(status);
    lemma_command_flags_bits(status.outputs);
}

/// A heartbeat renews only a live lease. It succeeds only inside a
/// controlled session (with the lease still ahead of `now_ms` where the
/// stage enforces one), and then renews the lease to the configured timeout
/// from `now_ms` and changes no request. A heartbeat at or after the
/// deadline of an enforced lease fails with `FaultLatched` and leaves the
/// fault latched with the safe outputs and no lease.
pub proof fn lemma_heartbeat_renews_only_a_live_lease(s: PolicyState, now_ms: u64)
    requires
        s.inv(),
    ensures
        ({
            let (after, result) = s.heartbeat_outcome(now_ms);
            &&& result is Ok ==> {
                &&& s.state is Controlled
                &&& (s.config.stage.enforces_lease() ==> s.lease_live_at(now_ms))
                &&& after.state is Controlled
                &&& after.requested_outputs == s.requested_outputs
                &&& after.lease_deadline_ms == (if s.config.stage.enforces_lease() {
                    Some(lease_deadline_after(now_ms, s.config.lease_timeout_ms))
                } else {
                    None::<u64>
                })
            }
            &&& (s.state is Controlled && s.config.stage.enforces_lease() && !s.lease_live_at(
                now_ms,
            )) ==> {
                &&& result == Err::<(), SafetyError>(SafetyError::FaultLatched)
                &&& after.is_faulted()
                &&& (s.config.stage.enforces_trip_latch() && s.trip_input_asserted
                    || after.fault is LeaseExpired)
                &&& after.effective_outputs() == SafetyOutputs::safe()
                &&& after.lease_deadline_ms is None
            }
            &&& !(s.state is Controlled) ==> result is Err
        }),
{
}

/// Each request changes only what it asks for. A granted 5 V enable changes
/// only the 5 V request, a granted reset release only the reset request, and
/// a granted fan change below 100 percent only the fan request. No other operation enables
/// 5 V, releases reset or lowers the fan.
pub proof fn lemma_requests_change_only_their_own_output(
    s: PolicyState,
    now_ms: u64,
    trip_input_asserted: bool,
    flag: bool,
    percent: u8,
)
    ensures
        s.five_volt_outcome(true, now_ms).1 is Ok ==> s.five_volt_outcome(true, now_ms).0.requested_outputs
            == (SafetyOutputs { five_volt_enabled: true, ..s.requested_outputs }),
        s.asic_reset_outcome(false, now_ms).1 is Ok ==> s.asic_reset_outcome(
            false,
            now_ms,
        ).0.requested_outputs == (SafetyOutputs {
            asic_reset_asserted: false,
            ..s.requested_outputs
        }),
        percent < 100 && s.fan_outcome(percent, now_ms).1 is Ok ==> s.fan_outcome(
            percent,
            now_ms,
        ).0.requested_outputs == (SafetyOutputs { fan_percent: percent, ..s.requested_outputs }),
        s.requested_outputs.asic_reset_asserted ==> {
            &&& s.after_tick(now_ms, trip_input_asserted).requested_outputs.asic_reset_asserted
            &&& s.arm_outcome(now_ms).0.requested_outputs.asic_reset_asserted
            &&& s.heartbeat_outcome(now_ms).0.requested_outputs.asic_reset_asserted
            &&& s.five_volt_outcome(flag, now_ms).0.requested_outputs.asic_reset_asserted
            &&& s.asic_reset_outcome(true, now_ms).0.requested_outputs.asic_reset_asserted
            &&& s.fan_outcome(percent, now_ms).0.requested_outputs.asic_reset_asserted
            &&& s.clear_fault_outcome().0.requested_outputs.asic_reset_asserted
            &&& s.disarmed().requested_outputs.asic_reset_asserted
        },
        !s.requested_outputs.five_volt_enabled ==> {
            &&& !s.after_tick(now_ms, trip_input_asserted).requested_outputs.five_volt_enabled
            &&& !s.arm_outcome(now_ms).0.requested_outputs.five_volt_enabled
            &&& !s.heartbeat_outcome(now_ms).0.requested_outputs.five_volt_enabled
            &&& !s.five_volt_outcome(false, now_ms).0.requested_outputs.five_volt_enabled
            &&& !s.asic_reset_outcome(flag, now_ms).0.requested_outputs.five_volt_enabled
            &&& !s.fan_outcome(percent, now_ms).0.requested_outputs.five_volt_enabled
            &&& !s.clear_fault_outcome().0.requested_outputs.five_volt_enabled
            &&& !s.disarmed().requested_outputs.five_volt_enabled
        },
        s.requested_outputs.fan_percent == 100 ==> {
            &&& s.after_tick(now_ms, trip_input_asserted).requested_outputs.fan_percent == 100
            &&& s.arm_outcome(now_ms).0.requested_outputs.fan_percent == 100
            &&& s.heartbeat_outcome(now_ms).0.requested_outputs.fan_percent == 100
            &&& s.five_volt_outcome(flag, now_ms).0.requested_outputs.fan_percent == 100
            &&& s.asic_reset_outcome(flag, now_ms).0.requested_outputs.fan_percent == 100
            &&& s.fan_outcome(100, now_ms).0.requested_outputs.fan_percent == 100
            &&& s.clear_fault_outcome().0.requested_outputs.fan_percent == 100
            &&& s.disarmed().requested_outputs.fan_percent == 100
        },
{
}

/// `CLEAR_FAULT` refuses exactly while the trip sample is asserted, and then
/// changes nothing; otherwise it succeeds from any state and leaves exactly
/// the boot state of the same configuration: safe-off, no fault, the safe
/// request and no lease.
pub proof fn lemma_clear_fault_returns_to_the_boot_state(s: PolicyState)
    ensures
        s.trip_input_asserted ==> s.clear_fault_outcome() == (s, Err::<(), SafetyError>(
            SafetyError::TripActive,
        )),
        !s.trip_input_asserted ==> {
            &&& s.clear_fault_outcome().1 is Ok
            &&& s.clear_fault_outcome().0 == PolicyState::initial(s.config)
            &&& s.clear_fault_outcome().0.state is SafeOff
            &&& s.clear_fault_outcome().0.fault is NoFault
            &&& s.clear_fault_outcome().0.effective_outputs() == SafetyOutputs::safe()
            &&& s.clear_fault_outcome().0.lease_deadline_ms is None
        },
{
}

/// No operation changes the configuration, and a tick records the trip
/// sample it is given.
pub proof fn lemma_operations_keep_the_configuration(
    s: PolicyState,
    now_ms: u64,
    trip_input_asserted: bool,
    flag: bool,
    percent: u8,
)
    ensures
        s.after_tick(now_ms, trip_input_asserted).config == s.config,
        s.after_tick(now_ms, trip_input_asserted).trip_input_asserted == trip_input_asserted,
        s.arm_outcome(now_ms).0.config == s.config,
        s.heartbeat_outcome(now_ms).0.config == s.config,
        s.five_volt_outcome(flag, now_ms).0.config == s.config,
        s.asic_reset_outcome(flag, now_ms).0.config == s.config,
        s.fan_outcome(percent, now_ms).0.config == s.config,
        s.clear_fault_outcome().0.config == s.config,
        s.disarmed().config == s.config,
{
}

/// What the status reports about the lease and the verdicts. The remaining
/// lease is nonzero exactly while the lease is live, and then is the time to
/// the deadline clamped to `u32`. The lease-valid evidence bit is set exactly
/// when the stage does not enforce a lease or a controlled session holds a
/// live one, and the hardware evidence bits mirror the capability bits. The
/// runtime verdict is good safe-off exactly in a clean safe-off, good
/// controlled exactly in a clean controlled session (with a live lease where
/// one is enforced), and the production verdict is good exactly when the
/// trip latch is enforced, the runtime verdict is good and every required
/// capability is present.
pub proof fn lemma_status_reports_the_lease_and_verdicts(s: PolicyState, now_ms: u64)
    requires
        s.inv(),
    ensures
        ({
            let status = s.status_at(now_ms);
            let clean = s.fault is NoFault && !s.trip_input_asserted;
            &&& (status.lease_remaining_ms > 0) == s.lease_live_at(now_ms)
            &&& (s.lease_deadline_ms matches Some(deadline) && now_ms < deadline) ==> {
                &&& s.lease_deadline_ms->0 - now_ms <= u32::MAX ==> status.lease_remaining_ms
                    == s.lease_deadline_ms->0 - now_ms
                &&& s.lease_deadline_ms->0 - now_ms > u32::MAX ==> status.lease_remaining_ms
                    == u32::MAX
            }
            &&& (status.evidence & EVIDENCE_LEASE_VALID != 0) == (!s.config.stage.enforces_lease()
                || (s.state is Controlled && s.lease_live_at(now_ms)))
            &&& (status.evidence & EVIDENCE_CORE_CUTOFF_AVAILABLE != 0) == (s.config.capabilities
                & CAP_CORE_POWER_CUTOFF != 0)
            &&& (status.evidence & EVIDENCE_FAN_TACH_INTERLOCK_AVAILABLE != 0) == (
            s.config.capabilities & CAP_FAN_TACH_INTERLOCK != 0)
            &&& (status.evidence & EVIDENCE_INDEPENDENT_TRIP_MONITOR_AVAILABLE != 0) == (
            s.config.capabilities & CAP_INDEPENDENT_TRIP_MONITOR != 0)
            &&& status.evidence & 0xff80 == 0
            &&& (status.runtime_verdict is GoodSafeOff) == (clean && s.state is SafeOff)
            &&& (status.runtime_verdict is GoodControlled) == (clean && s.state is Controlled && (
            s.config.stage.enforces_lease() ==> s.lease_live_at(now_ms)))
            &&& (status.runtime_verdict is BadLease) == (clean && s.state is Controlled
                && s.config.stage.enforces_lease() && !s.lease_live_at(now_ms))
            &&& (status.runtime_verdict is BadTripInput) == (s.fault is NoFault
                && s.trip_input_asserted)
            &&& (status.runtime_verdict is BadFault) == s.is_faulted()
            &&& (status.production_verdict is Good) == (s.config.stage.enforces_trip_latch() && (
            status.runtime_verdict is GoodSafeOff || status.runtime_verdict is GoodControlled)
                && s.config.capabilities & REQUIRED_PRODUCTION_CAPABILITIES
                == REQUIRED_PRODUCTION_CAPABILITIES)
            &&& (status.production_verdict is BadStageDisabled) == !s.config.stage.enforces_trip_latch()
        }),
{
    lemma_evidence_bits(
        s.effective_outputs().is_safe(),
        s.lease_valid_at(now_ms),
        !s.trip_input_asserted,
        s.fault is NoFault,
        s.config.capabilities & CAP_CORE_POWER_CUTOFF != 0,
        s.config.capabilities & CAP_FAN_TACH_INTERLOCK != 0,
        s.config.capabilities & CAP_INDEPENDENT_TRIP_MONITOR != 0,
    );
}

/// `DISARM` always ends with the safe request and no lease; it ends a
/// healthy session in safe-off and never clears or changes a fault.
pub proof fn lemma_disarm_ends_a_healthy_session(s: PolicyState)
    requires
        s.inv(),
    ensures
        s.disarmed().requested_outputs == SafetyOutputs::safe(),
        s.disarmed().effective_outputs() == SafetyOutputs::safe(),
        s.disarmed().lease_deadline_ms is None,
        s.disarmed().fault == s.fault,
        s.disarmed().trip_input_asserted == s.trip_input_asserted,
        s.fault is NoFault ==> s.disarmed().state is SafeOff,
        !(s.fault is NoFault) ==> s.disarmed().state is FaultLatched,
{
}

} // verus!
