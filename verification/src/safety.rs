//! The local output interlock: a pure state machine over the board-control
//! requests, its lease and trip latch, and the status it reports.
use vstd::prelude::*;

use crate::{le_bytes_u16, le_bytes_u32};
use crate::status_buffer::{extend_status_buffer, new_status_buffer, status_buffer_contents};

verus! {

pub const SAFETY_STATUS_SCHEMA_VERSION: u8 = 1;

pub const SAFETY_STATUS_ENCODED_LEN: usize = 17;

pub const PRODUCTION_LEASE_TIMEOUT_MS: u32 = 2_000;

/// A safety command on system page `0x00`.
#[derive(Clone, Copy, Debug, PartialEq, Eq, Structural)]
pub enum SafetyWireCommand {
    GetStatus,
    ArmLease,
    Heartbeat,
    ClearFault,
    Disarm,
}

impl SafetyWireCommand {
    /// The command byte that selects this command.
    #[verifier::allow_in_spec]
    pub fn code(self) -> u8
        returns
            (match self {
                SafetyWireCommand::GetStatus => 0x10u8,
                SafetyWireCommand::ArmLease => 0x11u8,
                SafetyWireCommand::Heartbeat => 0x12u8,
                SafetyWireCommand::ClearFault => 0x13u8,
                SafetyWireCommand::Disarm => 0x14u8,
            }),
    {
        match self {
            SafetyWireCommand::GetStatus => 0x10,
            SafetyWireCommand::ArmLease => 0x11,
            SafetyWireCommand::Heartbeat => 0x12,
            SafetyWireCommand::ClearFault => 0x13,
            SafetyWireCommand::Disarm => 0x14,
        }
    }
}

/// The command whose code is `byte`, if any.
pub open spec fn command_with_code(byte: u8) -> Option<SafetyWireCommand> {
    if byte == 0x10 {
        Some(SafetyWireCommand::GetStatus)
    } else if byte == 0x11 {
        Some(SafetyWireCommand::ArmLease)
    } else if byte == 0x12 {
        Some(SafetyWireCommand::Heartbeat)
    } else if byte == 0x13 {
        Some(SafetyWireCommand::ClearFault)
    } else if byte == 0x14 {
        Some(SafetyWireCommand::Disarm)
    } else {
        None
    }
}

/// Decodes a safety command payload: exactly one known command byte, with no
/// trailing data.
pub fn decode_wire_command(bytes: &[u8]) -> (command: Option<SafetyWireCommand>)
    ensures
        command == (if bytes@.len() == 1 {
            command_with_code(bytes@[0])
        } else {
            None
        }),
{
    if bytes.len() != 1 {
        return None;
    }
    match bytes[0] {
        0x10 => Some(SafetyWireCommand::GetStatus),
        0x11 => Some(SafetyWireCommand::ArmLease),
        0x12 => Some(SafetyWireCommand::Heartbeat),
        0x13 => Some(SafetyWireCommand::ClearFault),
        0x14 => Some(SafetyWireCommand::Disarm),
        _ => None,
    }
}

/// Decoding is exact: a payload decodes to a command if and only if it is
/// that command's single code byte.
pub proof fn lemma_wire_command_decoding_is_exact(bytes: Seq<u8>, command: SafetyWireCommand)
    ensures
        (bytes.len() == 1 && command_with_code(bytes[0]) == Some(command)) <==> bytes
            == seq![command.code()],
{
    if bytes == seq![command.code()] {
        assert(bytes.len() == 1 && bytes[0] == command.code());
    }
    if bytes.len() == 1 && command_with_code(bytes[0]) == Some(command) {
        assert(bytes =~= seq![command.code()]);
    }
}

pub const CAP_FIVE_VOLT_CONTROL: u16 = 0x0001;

pub const CAP_ASIC_RESET_CONTROL: u16 = 0x0002;

pub const CAP_FAN_FORCE_FULL: u16 = 0x0004;

pub const CAP_TRIP_INPUT_SAMPLED: u16 = 0x0008;

pub const CAP_CORE_POWER_CUTOFF: u16 = 0x0010;

pub const CAP_FAN_TACH_INTERLOCK: u16 = 0x0020;

pub const CAP_INDEPENDENT_TRIP_MONITOR: u16 = 0x0040;

pub const CAP_FAN_CONTROLLED_SPEED: u16 = 0x0080;

pub const EVIDENCE_OUTPUTS_SAFE: u16 = 0x0001;

pub const EVIDENCE_LEASE_VALID: u16 = 0x0002;

pub const EVIDENCE_TRIP_CLEAR: u16 = 0x0004;

pub const EVIDENCE_FAULT_CLEAR: u16 = 0x0008;

pub const EVIDENCE_CORE_CUTOFF_AVAILABLE: u16 = 0x0010;

pub const EVIDENCE_FAN_TACH_INTERLOCK_AVAILABLE: u16 = 0x0020;

pub const EVIDENCE_INDEPENDENT_TRIP_MONITOR_AVAILABLE: u16 = 0x0040;

/// Every capability bit: a production-ready bridge must implement all of them.
pub const REQUIRED_PRODUCTION_CAPABILITIES: u16 = CAP_FIVE_VOLT_CONTROL | CAP_ASIC_RESET_CONTROL
    | CAP_FAN_FORCE_FULL | CAP_TRIP_INPUT_SAMPLED | CAP_CORE_POWER_CUTOFF | CAP_FAN_TACH_INTERLOCK
    | CAP_INDEPENDENT_TRIP_MONITOR | CAP_FAN_CONTROLLED_SPEED;

/// How much of the interlock a configuration enforces.
#[derive(Clone, Copy, Debug, PartialEq, Eq, Structural)]
pub enum SafetyStage {
    BootSafe,
    Lease,
    TripLatch,
}

impl SafetyStage {
    #[verifier::allow_in_spec]
    pub fn enforces_lease(self) -> bool
        returns
            (self is Lease || self is TripLatch),
    {
        matches!(self, SafetyStage::Lease | SafetyStage::TripLatch)
    }

    #[verifier::allow_in_spec]
    pub fn enforces_trip_latch(self) -> bool
        returns
            (self is TripLatch),
    {
        matches!(self, SafetyStage::TripLatch)
    }

    /// The stage's byte in the status payload.
    #[verifier::allow_in_spec]
    pub fn code(self) -> u8
        returns
            (match self {
                SafetyStage::BootSafe => 0u8,
                SafetyStage::Lease => 1u8,
                SafetyStage::TripLatch => 2u8,
            }),
    {
        match self {
            SafetyStage::BootSafe => 0,
            SafetyStage::Lease => 1,
            SafetyStage::TripLatch => 2,
        }
    }
}

#[derive(Clone, Copy, Debug, PartialEq, Eq, Structural)]
pub enum SafetyState {
    SafeOff,
    Controlled,
    FaultLatched,
}

impl SafetyState {
    /// The state's byte in the status payload.
    #[verifier::allow_in_spec]
    pub fn code(self) -> u8
        returns
            (match self {
                SafetyState::SafeOff => 0u8,
                SafetyState::Controlled => 1u8,
                SafetyState::FaultLatched => 2u8,
            }),
    {
        match self {
            SafetyState::SafeOff => 0,
            SafetyState::Controlled => 1,
            SafetyState::FaultLatched => 2,
        }
    }
}

#[derive(Clone, Copy, Debug, PartialEq, Eq, Structural)]
pub enum FaultReason {
    NoFault,
    LeaseExpired,
    AsicTrip,
}

impl FaultReason {
    /// The fault's byte in the status payload.
    #[verifier::allow_in_spec]
    pub fn code(self) -> u8
        returns
            (match self {
                FaultReason::NoFault => 0u8,
                FaultReason::LeaseExpired => 1u8,
                FaultReason::AsicTrip => 2u8,
            }),
    {
        match self {
            FaultReason::NoFault => 0,
            FaultReason::LeaseExpired => 1,
            FaultReason::AsicTrip => 2,
        }
    }
}

#[derive(Clone, Copy, Debug, PartialEq, Eq, Structural)]
pub enum RuntimeVerdict {
    GoodSafeOff,
    GoodControlled,
    BadFault,
    BadLease,
    BadTripInput,
    BadUnsafeOutputs,
}

impl RuntimeVerdict {
    /// The verdict's byte in the status payload.
    #[verifier::allow_in_spec]
    pub fn code(self) -> u8
        returns
            (match self {
                RuntimeVerdict::GoodSafeOff => 0x00u8,
                RuntimeVerdict::GoodControlled => 0x01u8,
                RuntimeVerdict::BadFault => 0x80u8,
                RuntimeVerdict::BadLease => 0x81u8,
                RuntimeVerdict::BadTripInput => 0x82u8,
                RuntimeVerdict::BadUnsafeOutputs => 0x83u8,
            }),
    {
        match self {
            RuntimeVerdict::GoodSafeOff => 0x00,
            RuntimeVerdict::GoodControlled => 0x01,
            RuntimeVerdict::BadFault => 0x80,
            RuntimeVerdict::BadLease => 0x81,
            RuntimeVerdict::BadTripInput => 0x82,
            RuntimeVerdict::BadUnsafeOutputs => 0x83,
        }
    }
}

#[derive(Clone, Copy, Debug, PartialEq, Eq, Structural)]
pub enum ProductionVerdict {
    Good,
    BadStageDisabled,
    BadCapabilityGap,
    BadRuntime,
}

impl ProductionVerdict {
    /// The verdict's byte in the status payload.
    #[verifier::allow_in_spec]
    pub fn code(self) -> u8
        returns
            (match self {
                ProductionVerdict::Good => 0x00u8,
                ProductionVerdict::BadStageDisabled => 0x80u8,
                ProductionVerdict::BadCapabilityGap => 0x81u8,
                ProductionVerdict::BadRuntime => 0x82u8,
            }),
    {
        match self {
            ProductionVerdict::Good => 0x00,
            ProductionVerdict::BadStageDisabled => 0x80,
            ProductionVerdict::BadCapabilityGap => 0x81,
            ProductionVerdict::BadRuntime => 0x82,
        }
    }
}

#[derive(Clone, Copy, Debug, PartialEq, Eq, Structural)]
pub enum SafetyError {
    LeaseRequired,
    LeaseExpired,
    FaultLatched,
    TripActive,
    InvalidSequence,
    FanNotSafe,
    InvalidFanPercent,
}

#[derive(Clone, Copy, Debug, PartialEq, Eq, Structural)]
pub struct SafetyConfig {
    pub stage: SafetyStage,
    pub lease_timeout_ms: u32,
    pub capabilities: u16,
}

impl SafetyConfig {
    /// The configuration of every production image.
    pub fn firmware() -> (config: Self)
        ensures
            config == (SafetyConfig {
                stage: SafetyStage::TripLatch,
                lease_timeout_ms: PRODUCTION_LEASE_TIMEOUT_MS,
                capabilities: CAP_FIVE_VOLT_CONTROL | CAP_ASIC_RESET_CONTROL | CAP_FAN_FORCE_FULL
                    | CAP_TRIP_INPUT_SAMPLED | CAP_FAN_CONTROLLED_SPEED,
            }),
    {
        SafetyConfig {
            // Production images always enforce both the local output lease
            // and the active-high trip latch. Qualification-only build modes
            // must not be able to weaken this policy.
            stage: SafetyStage::TripLatch,
            lease_timeout_ms: PRODUCTION_LEASE_TIMEOUT_MS,
            // These describe only the control paths implemented by this firmware.
            // Independent VCORE cutoff, tach interlock, and independent trip
            // monitoring are deliberately absent until hardware proves them.
            capabilities: CAP_FIVE_VOLT_CONTROL | CAP_ASIC_RESET_CONTROL | CAP_FAN_FORCE_FULL
                | CAP_TRIP_INPUT_SAMPLED | CAP_FAN_CONTROLLED_SPEED,
        }
    }
}

/// The semantic board-control requests owned by the interlock.
#[derive(Clone, Copy, Debug, PartialEq, Eq, Structural)]
pub struct SafetyOutputs {
    pub five_volt_enabled: bool,
    pub asic_reset_asserted: bool,
    pub fan_percent: u8,
}

/// The electrical levels that realise a [`SafetyOutputs`] request.
#[derive(Clone, Copy, Debug, PartialEq, Eq, Structural)]
pub struct BoardControlIntent {
    pub five_volt_enable_high: bool,
    pub asic_reset_n_high: bool,
    pub fan_percent: u8,
}

impl SafetyOutputs {
    /// The safe request: 5 V disabled, ASIC reset asserted and the fan at
    /// 100 percent.
    #[verifier::allow_in_spec]
    pub fn safe() -> Self
        returns
            (SafetyOutputs { five_volt_enabled: false, asic_reset_asserted: true, fan_percent: 100 }),
    {
        SafetyOutputs { five_volt_enabled: false, asic_reset_asserted: true, fan_percent: 100 }
    }

    #[verifier::allow_in_spec]
    pub fn is_safe(self) -> bool
        returns
            (!self.five_volt_enabled && self.asic_reset_asserted && self.fan_percent == 100),
    {
        !self.five_volt_enabled && self.asic_reset_asserted && self.fan_percent == 100
    }

    /// `RST_N` is active low, so an asserted reset drives it low.
    pub fn board_control_intent(self) -> (intent: BoardControlIntent)
        ensures
            intent == (BoardControlIntent {
                five_volt_enable_high: self.five_volt_enabled,
                asic_reset_n_high: !self.asic_reset_asserted,
                fan_percent: self.fan_percent,
            }),
    {
        BoardControlIntent {
            five_volt_enable_high: self.five_volt_enabled,
            asic_reset_n_high: !self.asic_reset_asserted,
            fan_percent: self.fan_percent,
        }
    }
}

/// The fan PWM compare value (out of 1000) for a fan percentage, saturating
/// at 100 percent.
pub fn fan_pwm_compare(percent: u8) -> (compare: u16)
    ensures
        compare == 10 * (if percent > 100 { 100 } else { percent as int }),
{
    let bounded_percent = if percent > 100 {
        100
    } else {
        percent
    };
    (1000u32 * bounded_percent as u32 / 100) as u16
}

/// Everything the interlock reports about itself at one instant.
#[derive(Clone, Copy, Debug, PartialEq, Eq, Structural)]
pub struct SafetyStatus {
    pub stage: SafetyStage,
    pub state: SafetyState,
    pub fault: FaultReason,
    pub runtime_verdict: RuntimeVerdict,
    pub production_verdict: ProductionVerdict,
    pub capabilities: u16,
    pub evidence: u16,
    pub lease_remaining_ms: u32,
    pub outputs: SafetyOutputs,
    pub trip_input_asserted: bool,
}

impl SafetyOutputs {
    /// Effective command flags: bit 0 is 5 V enabled, bit 1 reset asserted,
    /// bit 2 fan at 100 percent.
    pub open spec fn command_flags(self) -> u8 {
        (if self.five_volt_enabled {
            1u8
        } else {
            0u8
        }) | (if self.asic_reset_asserted {
            2u8
        } else {
            0u8
        }) | (if self.fan_percent == 100 {
            4u8
        } else {
            0u8
        })
    }
}

impl SafetyStatus {
    /// The status payload: schema, stage, state, fault, runtime and
    /// production verdicts, capability bits, evidence bits, lease remaining,
    /// command flags, fan percentage and trip input, multi-byte fields little
    /// endian.
    pub open spec fn wire_bytes(self) -> Seq<u8> {
        seq![
            SAFETY_STATUS_SCHEMA_VERSION,
            self.stage.code(),
            self.state.code(),
            self.fault.code(),
            self.runtime_verdict.code(),
            self.production_verdict.code(),
        ] + le_bytes_u16(self.capabilities) + le_bytes_u16(self.evidence) + le_bytes_u32(
            self.lease_remaining_ms,
        ) + seq![
            self.outputs.command_flags(),
            self.outputs.fan_percent,
            if self.trip_input_asserted {
                1u8
            } else {
                0u8
            },
        ]
    }

    /// Encodes the fixed-width status payload.
    pub fn encode(self) -> (payload: heapless::Vec<u8, 32>)
        ensures
            status_buffer_contents(payload) == self.wire_bytes(),
            status_buffer_contents(payload).len() == SAFETY_STATUS_ENCODED_LEN,
    {
        let mut payload = new_status_buffer();
        let header = [
            SAFETY_STATUS_SCHEMA_VERSION,
            self.stage.code(),
            self.state.code(),
            self.fault.code(),
            self.runtime_verdict.code(),
            self.production_verdict.code(),
        ];
        let r = extend_status_buffer(&mut payload, &header);
        assert(r is Ok);
        let capabilities = [(self.capabilities % 0x100) as u8, (self.capabilities / 0x100) as u8];
        let r = extend_status_buffer(&mut payload, &capabilities);
        assert(r is Ok);
        let evidence = [(self.evidence % 0x100) as u8, (self.evidence / 0x100) as u8];
        let r = extend_status_buffer(&mut payload, &evidence);
        assert(r is Ok);
        let lease = self.lease_remaining_ms;
        let lease_bytes = [
            (lease % 0x100) as u8,
            (lease / 0x100 % 0x100) as u8,
            (lease / 0x1_0000 % 0x100) as u8,
            (lease / 0x100_0000) as u8,
        ];
        let r = extend_status_buffer(&mut payload, &lease_bytes);
        assert(r is Ok);

        let output_flags: u8 = (if self.outputs.five_volt_enabled {
            1u8
        } else {
            0u8
        }) | (if self.outputs.asic_reset_asserted {
            2u8
        } else {
            0u8
        }) | (if self.outputs.fan_percent == 100 {
            4u8
        } else {
            0u8
        });
        let trip: u8 = if self.trip_input_asserted {
            1
        } else {
            0
        };
        let tail = [output_flags, self.outputs.fan_percent, trip];
        let r = extend_status_buffer(&mut payload, &tail);
        assert(r is Ok);
        assert(status_buffer_contents(payload) =~= self.wire_bytes());
        payload
    }
}

/// The abstract state of a [`SafetyPolicy`].
pub struct PolicyState {
    pub config: SafetyConfig,
    pub state: SafetyState,
    pub fault: FaultReason,
    pub requested_outputs: SafetyOutputs,
    pub trip_input_asserted: bool,
    pub lease_deadline_ms: Option<u64>,
}

/// The lease deadline `timeout_ms` after `now_ms`, saturating at the end of
/// time.
pub open spec fn lease_deadline_after(now_ms: u64, timeout_ms: u32) -> u64 {
    if now_ms + timeout_ms > u64::MAX {
        u64::MAX
    } else {
        (now_ms + timeout_ms) as u64
    }
}

/// The `0`/`bit` contribution of one evidence condition.
pub open spec fn evidence_bit(holds: bool, bit: u16) -> u16 {
    if holds {
        bit
    } else {
        0
    }
}

impl PolicyState {
    /// The state a policy boots into.
    pub open spec fn initial(config: SafetyConfig) -> PolicyState {
        PolicyState {
            config,
            state: SafetyState::SafeOff,
            fault: FaultReason::NoFault,
            requested_outputs: SafetyOutputs::safe(),
            trip_input_asserted: false,
            lease_deadline_ms: None,
        }
    }

    /// What every reachable state satisfies: a fault is recorded exactly
    /// while it is latched, and only of a kind the stage enforces; outside a
    /// controlled session the safe request stands and no lease is armed; a
    /// controlled session holds a lease exactly where the stage enforces one;
    /// where the lease is enforced, reset is released only with 5 V enabled;
    /// and the fan request never exceeds 100 percent.
    pub open spec fn inv(self) -> bool {
        &&& (self.fault is NoFault <==> !(self.state is FaultLatched))
        &&& (self.fault is LeaseExpired ==> self.config.stage.enforces_lease())
        &&& (self.fault is AsicTrip ==> self.config.stage.enforces_trip_latch())
        &&& (!(self.state is Controlled) ==> self.requested_outputs == SafetyOutputs::safe()
            && self.lease_deadline_ms is None)
        &&& (self.state is Controlled ==> (self.lease_deadline_ms is Some
            <==> self.config.stage.enforces_lease()))
        &&& (self.config.stage.enforces_lease() && !self.requested_outputs.asic_reset_asserted
            ==> self.requested_outputs.five_volt_enabled)
        &&& self.requested_outputs.fan_percent <= 100
    }

    /// The outputs actually driven: a latched fault overrides every request.
    pub open spec fn effective_outputs(self) -> SafetyOutputs {
        if self.state is FaultLatched {
            SafetyOutputs::safe()
        } else {
            self.requested_outputs
        }
    }

    pub open spec fn is_faulted(self) -> bool {
        self.state is FaultLatched
    }

    /// Whether the lease deadline has passed at `now_ms`.
    pub open spec fn lease_expired_at(self, now_ms: u64) -> bool {
        match self.lease_deadline_ms {
            Some(deadline) => now_ms >= deadline,
            None => false,
        }
    }

    /// Whether a lease is armed whose deadline is still ahead of `now_ms`.
    pub open spec fn lease_live_at(self, now_ms: u64) -> bool {
        match self.lease_deadline_ms {
            Some(deadline) => now_ms < deadline,
            None => false,
        }
    }

    /// Latch `reason`: the safe request replaces every request and the lease
    /// ends.
    pub open spec fn latched(self, reason: FaultReason) -> PolicyState {
        PolicyState {
            state: SafetyState::FaultLatched,
            fault: reason,
            requested_outputs: SafetyOutputs::safe(),
            lease_deadline_ms: None,
            ..self
        }
    }

    pub open spec fn with_requested(self, requested_outputs: SafetyOutputs) -> PolicyState {
        PolicyState { requested_outputs, ..self }
    }

    /// Samples the trip input at `now_ms`: an asserted trip latches a fault
    /// where the stage enforces the trip latch, and otherwise an expired lease
    /// of a controlled session latches a fault where the stage enforces the
    /// lease.
    pub open spec fn after_tick(self, now_ms: u64, trip_input_asserted: bool) -> PolicyState {
        let sampled = PolicyState { trip_input_asserted, ..self };
        if !self.is_faulted() && self.config.stage.enforces_trip_latch() && trip_input_asserted {
            sampled.latched(FaultReason::AsicTrip)
        } else if self.state is Controlled && self.config.stage.enforces_lease()
            && self.lease_expired_at(now_ms) {
            sampled.latched(FaultReason::LeaseExpired)
        } else {
            sampled
        }
    }

    /// The same sample again: time passes with the trip input unchanged.
    pub open spec fn advanced(self, now_ms: u64) -> PolicyState {
        self.after_tick(now_ms, self.trip_input_asserted)
    }

    /// The guard in front of every request that moves away from safety: it
    /// needs a session that is not faulted, controlled (a stage that does not
    /// enforce the lease enters control on demand) and, where the lease is
    /// enforced, a live lease; a dead lease latches `LeaseExpired`.
    pub open spec fn admit_unsafe_request(self, now_ms: u64) -> (PolicyState, Result<(), SafetyError>) {
        if self.is_faulted() {
            (self, Err(SafetyError::FaultLatched))
        } else if self.state is SafeOff && self.config.stage.enforces_lease() {
            (self, Err(SafetyError::LeaseRequired))
        } else if self.config.stage.enforces_lease() && !self.lease_live_at(now_ms) {
            (self.latched(FaultReason::LeaseExpired), Err(SafetyError::LeaseExpired))
        } else {
            (PolicyState { state: SafetyState::Controlled, ..self }, Ok(()))
        }
    }

    /// `ARM`: enter a controlled session from the safe request.
    pub open spec fn arm_outcome(self, now_ms: u64) -> (PolicyState, Result<(), SafetyError>) {
        let s = self.advanced(now_ms);
        if s.is_faulted() {
            (s, Err(SafetyError::FaultLatched))
        } else if s.config.stage.enforces_trip_latch() && s.trip_input_asserted {
            (s, Err(SafetyError::TripActive))
        } else {
            (
                PolicyState {
                    requested_outputs: SafetyOutputs::safe(),
                    state: SafetyState::Controlled,
                    lease_deadline_ms: if s.config.stage.enforces_lease() {
                        Some(lease_deadline_after(now_ms, s.config.lease_timeout_ms))
                    } else {
                        None
                    },
                    ..s
                },
                Ok(()),
            )
        }
    }

    /// `HEARTBEAT`: renew the lease of a controlled session.
    pub open spec fn heartbeat_outcome(self, now_ms: u64) -> (PolicyState, Result<(), SafetyError>) {
        let s = self.advanced(now_ms);
        if s.is_faulted() {
            (s, Err(SafetyError::FaultLatched))
        } else if !(s.state is Controlled) {
            (s, Err(SafetyError::LeaseRequired))
        } else if s.config.stage.enforces_lease() {
            (
                PolicyState {
                    lease_deadline_ms: Some(lease_deadline_after(now_ms, s.config.lease_timeout_ms)),
                    ..s
                },
                Ok(()),
            )
        } else {
            (s, Ok(()))
        }
    }

    /// A request for the 5 V rail. Disabling it is always granted and also
    /// asserts reset and restores the full fan; enabling it passes the guard
    /// and, where the lease is enforced, needs the fan at 100 percent and
    /// reset asserted.
    pub open spec fn five_volt_outcome(self, enabled: bool, now_ms: u64) -> (
        PolicyState,
        Result<(), SafetyError>,
    ) {
        let s = self.advanced(now_ms);
        if !enabled {
            (s.with_requested(SafetyOutputs::safe()), Ok(()))
        } else {
            let (g, admission) = s.admit_unsafe_request(now_ms);
            if admission is Err {
                (g, admission)
            } else if g.config.stage.enforces_lease() && g.requested_outputs.fan_percent != 100 {
                (g, Err(SafetyError::FanNotSafe))
            } else if g.config.stage.enforces_lease() && !g.requested_outputs.asic_reset_asserted {
                (g, Err(SafetyError::InvalidSequence))
            } else {
                (
                    g.with_requested(
                        SafetyOutputs { five_volt_enabled: true, ..g.requested_outputs },
                    ),
                    Ok(()),
                )
            }
        }
    }

    /// A request for the ASIC reset. Asserting it is always granted;
    /// releasing it passes the guard and, where the lease is enforced, needs
    /// 5 V enabled.
    pub open spec fn asic_reset_outcome(self, asserted: bool, now_ms: u64) -> (
        PolicyState,
        Result<(), SafetyError>,
    ) {
        let s = self.advanced(now_ms);
        if asserted {
            (
                s.with_requested(SafetyOutputs { asic_reset_asserted: true, ..s.requested_outputs }),
                Ok(()),
            )
        } else {
            let (g, admission) = s.admit_unsafe_request(now_ms);
            if admission is Err {
                (g, admission)
            } else if g.config.stage.enforces_lease() && !g.requested_outputs.five_volt_enabled {
                (g, Err(SafetyError::InvalidSequence))
            } else {
                (
                    g.with_requested(
                        SafetyOutputs { asic_reset_asserted: false, ..g.requested_outputs },
                    ),
                    Ok(()),
                )
            }
        }
    }

    /// A request for the fan. Above 100 percent is invalid, exactly 100
    /// percent is always granted, and anything lower passes the guard.
    pub open spec fn fan_outcome(self, percent: u8, now_ms: u64) -> (
        PolicyState,
        Result<(), SafetyError>,
    ) {
        let s = self.advanced(now_ms);
        if percent > 100 {
            (s, Err(SafetyError::InvalidFanPercent))
        } else if percent == 100 {
            (s.with_requested(SafetyOutputs { fan_percent: 100, ..s.requested_outputs }), Ok(()))
        } else {
            let (g, admission) = s.admit_unsafe_request(now_ms);
            if admission is Err {
                (g, admission)
            } else {
                (
                    g.with_requested(SafetyOutputs { fan_percent: percent, ..g.requested_outputs }),
                    Ok(()),
                )
            }
        }
    }

    /// `CLEAR_FAULT`: refused while the trip input is asserted; otherwise a
    /// clean safe-off state.
    pub open spec fn clear_fault_outcome(self) -> (PolicyState, Result<(), SafetyError>) {
        if self.trip_input_asserted {
            (self, Err(SafetyError::TripActive))
        } else {
            (
                PolicyState {
                    state: SafetyState::SafeOff,
                    fault: FaultReason::NoFault,
                    requested_outputs: SafetyOutputs::safe(),
                    lease_deadline_ms: None,
                    ..self
                },
                Ok(()),
            )
        }
    }

    /// `DISARM`: the safe request and no lease; a healthy session ends in
    /// safe-off while a latched fault stays latched.
    pub open spec fn disarmed(self) -> PolicyState {
        PolicyState {
            requested_outputs: SafetyOutputs::safe(),
            lease_deadline_ms: None,
            state: if self.fault is NoFault {
                SafetyState::SafeOff
            } else {
                self.state
            },
            ..self
        }
    }

    /// Milliseconds left on the lease at `now_ms`, clamped to `u32`.
    pub open spec fn lease_remaining_ms(self, now_ms: u64) -> u32 {
        match self.lease_deadline_ms {
            Some(deadline) => if deadline <= now_ms {
                0
            } else if deadline - now_ms > u32::MAX {
                u32::MAX
            } else {
                (deadline - now_ms) as u32
            },
            None => 0,
        }
    }

    pub open spec fn lease_valid_at(self, now_ms: u64) -> bool {
        !self.config.stage.enforces_lease() || (self.state is Controlled && self.lease_remaining_ms(
            now_ms,
        ) > 0)
    }

    /// The evidence bits: outputs safe, lease valid, trip clear, fault clear,
    /// and the three independent hardware capabilities.
    pub open spec fn evidence(self, now_ms: u64) -> u16 {
        evidence_bit(self.effective_outputs().is_safe(), EVIDENCE_OUTPUTS_SAFE)
            | evidence_bit(self.lease_valid_at(now_ms), EVIDENCE_LEASE_VALID)
            | evidence_bit(!self.trip_input_asserted, EVIDENCE_TRIP_CLEAR)
            | evidence_bit(self.fault is NoFault, EVIDENCE_FAULT_CLEAR)
            | evidence_bit(
            self.config.capabilities & CAP_CORE_POWER_CUTOFF != 0,
            EVIDENCE_CORE_CUTOFF_AVAILABLE,
        ) | evidence_bit(
            self.config.capabilities & CAP_FAN_TACH_INTERLOCK != 0,
            EVIDENCE_FAN_TACH_INTERLOCK_AVAILABLE,
        ) | evidence_bit(
            self.config.capabilities & CAP_INDEPENDENT_TRIP_MONITOR != 0,
            EVIDENCE_INDEPENDENT_TRIP_MONITOR_AVAILABLE,
        )
    }

    pub open spec fn runtime_verdict(self, now_ms: u64) -> RuntimeVerdict {
        if !(self.fault is NoFault) {
            RuntimeVerdict::BadFault
        } else if self.trip_input_asserted {
            RuntimeVerdict::BadTripInput
        } else if self.state is SafeOff {
            if self.effective_outputs().is_safe() {
                RuntimeVerdict::GoodSafeOff
            } else {
                RuntimeVerdict::BadUnsafeOutputs
            }
        } else if self.config.stage.enforces_lease() && !self.lease_valid_at(now_ms) {
            RuntimeVerdict::BadLease
        } else {
            RuntimeVerdict::GoodControlled
        }
    }

    pub open spec fn production_verdict(self, now_ms: u64) -> ProductionVerdict {
        let runtime = self.runtime_verdict(now_ms);
        if !self.config.stage.enforces_trip_latch() {
            ProductionVerdict::BadStageDisabled
        } else if !(runtime is GoodSafeOff || runtime is GoodControlled) {
            ProductionVerdict::BadRuntime
        } else if self.config.capabilities & REQUIRED_PRODUCTION_CAPABILITIES
            != REQUIRED_PRODUCTION_CAPABILITIES {
            ProductionVerdict::BadCapabilityGap
        } else {
            ProductionVerdict::Good
        }
    }

    /// The status reported at `now_ms`.
    pub open spec fn status_at(self, now_ms: u64) -> SafetyStatus {
        SafetyStatus {
            stage: self.config.stage,
            state: self.state,
            fault: self.fault,
            runtime_verdict: self.runtime_verdict(now_ms),
            production_verdict: self.production_verdict(now_ms),
            capabilities: self.config.capabilities,
            evidence: self.evidence(now_ms),
            lease_remaining_ms: self.lease_remaining_ms(now_ms),
            outputs: self.effective_outputs(),
            trip_input_asserted: self.trip_input_asserted,
        }
    }
}

/// The interlock. Every request goes through it; its outputs are the only
/// board-control commands the firmware applies.
#[derive(Debug)]
pub struct SafetyPolicy {
    config: SafetyConfig,
    state: SafetyState,
    fault: FaultReason,
    requested_outputs: SafetyOutputs,
    trip_input_asserted: bool,
    lease_deadline_ms: Option<u64>,
}

impl View for SafetyPolicy {
    type V = PolicyState;

    closed spec fn view(&self) -> PolicyState {
        PolicyState {
            config: self.config,
            state: self.state,
            fault: self.fault,
            requested_outputs: self.requested_outputs,
            trip_input_asserted: self.trip_input_asserted,
            lease_deadline_ms: self.lease_deadline_ms,
        }
    }
}

impl SafetyPolicy {
    /// A policy in safe-off with the safe request, no fault and no lease.
    pub fn new(config: SafetyConfig) -> (policy: Self)
        ensures
            policy@ == PolicyState::initial(config),
    {
        SafetyPolicy {
            config,
            state: SafetyState::SafeOff,
            fault: FaultReason::NoFault,
            requested_outputs: SafetyOutputs::safe(),
            trip_input_asserted: false,
            lease_deadline_ms: None,
        }
    }

    pub fn config(&self) -> (config: SafetyConfig)
        ensures
            config == self@.config,
    {
        self.config
    }

    /// The effective outputs: the safe request while a fault is latched, the
    /// requested outputs otherwise.
    pub fn outputs(&self) -> (outputs: SafetyOutputs)
        ensures
            outputs == self@.effective_outputs(),
    {
        if matches!(self.state, SafetyState::FaultLatched) {
            SafetyOutputs::safe()
        } else {
            self.requested_outputs
        }
    }

    /// Samples the trip input and advances the lease clock to `now_ms`.
    pub fn tick(&mut self, now_ms: u64, trip_input_asserted: bool)
        ensures
            final(self)@ == old(self)@.after_tick(now_ms, trip_input_asserted),
    {
        self.trip_input_asserted = trip_input_asserted;

        if !matches!(self.state, SafetyState::FaultLatched)
            && self.config.stage.enforces_trip_latch() && trip_input_asserted {
            self.latch_fault(FaultReason::AsicTrip);
            return;
        }
        if !matches!(self.state, SafetyState::Controlled) || !self.config.stage.enforces_lease() {
            return;
        }
        let expired = match self.lease_deadline_ms {
            Some(deadline) => now_ms >= deadline,
            None => false,
        };
        if expired {
            self.latch_fault(FaultReason::LeaseExpired);
        }
    }

    /// `ARM`: starts a controlled session from the safe request.
    pub fn arm(&mut self, now_ms: u64) -> (result: Result<(), SafetyError>)
        ensures
            (final(self)@, result) == old(self)@.arm_outcome(now_ms),
    {
        self.tick(now_ms, self.trip_input_asserted);
        self.ensure_not_faulted()?;
        if self.config.stage.enforces_trip_latch() && self.trip_input_asserted {
            return Err(SafetyError::TripActive);
        }
        self.requested_outputs = SafetyOutputs::safe();
        self.state = SafetyState::Controlled;
        self.lease_deadline_ms = if self.config.stage.enforces_lease() {
            Some(now_ms.saturating_add(self.config.lease_timeout_ms as u64))
        } else {
            None
        };
        Ok(())
    }

    /// `HEARTBEAT`: renews the lease of a controlled session.
    pub fn heartbeat(&mut self, now_ms: u64) -> (result: Result<(), SafetyError>)
        ensures
            (final(self)@, result) == old(self)@.heartbeat_outcome(now_ms),
    {
        self.tick(now_ms, self.trip_input_asserted);
        self.ensure_not_faulted()?;
        if !matches!(self.state, SafetyState::Controlled) {
            return Err(SafetyError::LeaseRequired);
        }
        if self.config.stage.enforces_lease() {
            self.lease_deadline_ms = Some(now_ms.saturating_add(self.config.lease_timeout_ms as u64));
        }
        Ok(())
    }

    pub fn request_five_volt_enabled(&mut self, enabled: bool, now_ms: u64) -> (result: Result<
        (),
        SafetyError,
    >)
        ensures
            (final(self)@, result) == old(self)@.five_volt_outcome(enabled, now_ms),
    {
        self.tick(now_ms, self.trip_input_asserted);
        if !enabled {
            self.requested_outputs.five_volt_enabled = false;
            self.requested_outputs.asic_reset_asserted = true;
            self.requested_outputs.fan_percent = 100;
            return Ok(());
        }
        self.ensure_controlled(now_ms)?;
        if self.config.stage.enforces_lease() {
            if self.requested_outputs.fan_percent != 100 {
                return Err(SafetyError::FanNotSafe);
            }
            if !self.requested_outputs.asic_reset_asserted {
                return Err(SafetyError::InvalidSequence);
            }
        }
        self.requested_outputs.five_volt_enabled = true;
        Ok(())
    }

    pub fn request_asic_reset_asserted(&mut self, asserted: bool, now_ms: u64) -> (result: Result<
        (),
        SafetyError,
    >)
        ensures
            (final(self)@, result) == old(self)@.asic_reset_outcome(asserted, now_ms),
    {
        self.tick(now_ms, self.trip_input_asserted);
        if asserted {
            self.requested_outputs.asic_reset_asserted = true;
            return Ok(());
        }
        self.ensure_controlled(now_ms)?;
        if self.config.stage.enforces_lease() && !self.requested_outputs.five_volt_enabled {
            return Err(SafetyError::InvalidSequence);
        }
        self.requested_outputs.asic_reset_asserted = false;
        Ok(())
    }

    pub fn request_fan_percent(&mut self, percent: u8, now_ms: u64) -> (result: Result<
        (),
        SafetyError,
    >)
        ensures
            (final(self)@, result) == old(self)@.fan_outcome(percent, now_ms),
    {
        self.tick(now_ms, self.trip_input_asserted);
        if percent > 100 {
            return Err(SafetyError::InvalidFanPercent);
        }
        if percent == 100 {
            self.requested_outputs.fan_percent = percent;
            return Ok(());
        }
        self.ensure_controlled(now_ms)?;
        self.requested_outputs.fan_percent = percent;
        Ok(())
    }

    /// `CLEAR_FAULT`: returns to safe-off unless the trip input is asserted.
    pub fn clear_fault(&mut self, now_ms: u64) -> (result: Result<(), SafetyError>)
        ensures
            (final(self)@, result) == old(self)@.clear_fault_outcome(),
    {
        if self.trip_input_asserted {
            return Err(SafetyError::TripActive);
        }
        self.state = SafetyState::SafeOff;
        self.fault = FaultReason::NoFault;
        self.requested_outputs = SafetyOutputs::safe();
        self.lease_deadline_ms = None;
        self.tick(now_ms, false);
        Ok(())
    }

    /// `DISARM`: requests the safe outputs and ends a healthy session; a
    /// latched fault stays latched.
    pub fn disarm(&mut self)
        ensures
            final(self)@ == old(self)@.disarmed(),
    {
        self.requested_outputs = SafetyOutputs::safe();
        self.lease_deadline_ms = None;
        if matches!(self.fault, FaultReason::NoFault) {
            self.state = SafetyState::SafeOff;
        }
    }

    /// The status at `now_ms`: state, fault, verdicts, evidence, remaining
    /// lease and the effective outputs.
    pub fn status(&self, now_ms: u64) -> (status: SafetyStatus)
        ensures
            status == self@.status_at(now_ms),
    {
        let outputs = self.outputs();
        let lease_remaining_ms: u32 = match self.lease_deadline_ms {
            Some(deadline) => {
                let remaining = deadline.saturating_sub(now_ms);
                if remaining > u32::MAX as u64 {
                    u32::MAX
                } else {
                    remaining as u32
                }
            },
            None => 0,
        };
        let lease_valid = !self.config.stage.enforces_lease() || (matches!(
            self.state,
            SafetyState::Controlled
        ) && lease_remaining_ms > 0);

        let evidence: u16 = (if outputs.is_safe() {
            EVIDENCE_OUTPUTS_SAFE
        } else {
            0
        }) | (if lease_valid {
            EVIDENCE_LEASE_VALID
        } else {
            0
        }) | (if !self.trip_input_asserted {
            EVIDENCE_TRIP_CLEAR
        } else {
            0
        }) | (if matches!(self.fault, FaultReason::NoFault) {
            EVIDENCE_FAULT_CLEAR
        } else {
            0
        }) | (if self.config.capabilities & CAP_CORE_POWER_CUTOFF != 0 {
            EVIDENCE_CORE_CUTOFF_AVAILABLE
        } else {
            0
        }) | (if self.config.capabilities & CAP_FAN_TACH_INTERLOCK != 0 {
            EVIDENCE_FAN_TACH_INTERLOCK_AVAILABLE
        } else {
            0
        }) | (if self.config.capabilities & CAP_INDEPENDENT_TRIP_MONITOR != 0 {
            EVIDENCE_INDEPENDENT_TRIP_MONITOR_AVAILABLE
        } else {
            0
        });

        let runtime_verdict = if !matches!(self.fault, FaultReason::NoFault) {
            RuntimeVerdict::BadFault
        } else if self.trip_input_asserted {
            RuntimeVerdict::BadTripInput
        } else if matches!(self.state, SafetyState::SafeOff) {
            if outputs.is_safe() {
                RuntimeVerdict::GoodSafeOff
            } else {
                RuntimeVerdict::BadUnsafeOutputs
            }
        } else if self.config.stage.enforces_lease() && !lease_valid {
            RuntimeVerdict::BadLease
        } else {
            RuntimeVerdict::GoodControlled
        };

        let production_verdict = if !self.config.stage.enforces_trip_latch() {
            ProductionVerdict::BadStageDisabled
        } else if !matches!(
            runtime_verdict,
            RuntimeVerdict::GoodSafeOff | RuntimeVerdict::GoodControlled
        ) {
            ProductionVerdict::BadRuntime
        } else if self.config.capabilities & REQUIRED_PRODUCTION_CAPABILITIES
            != REQUIRED_PRODUCTION_CAPABILITIES {
            ProductionVerdict::BadCapabilityGap
        } else {
            ProductionVerdict::Good
        };

        SafetyStatus {
            stage: self.config.stage,
            state: self.state,
            fault: self.fault,
            runtime_verdict,
            production_verdict,
            capabilities: self.config.capabilities,
            evidence,
            lease_remaining_ms,
            outputs,
            trip_input_asserted: self.trip_input_asserted,
        }
    }

    /// The guard in front of every request that moves away from safety.
    fn ensure_controlled(&mut self, now_ms: u64) -> (result: Result<(), SafetyError>)
        ensures
            (final(self)@, result) == old(self)@.admit_unsafe_request(now_ms),
    {
        self.ensure_not_faulted()?;
        if matches!(self.state, SafetyState::SafeOff) {
            if self.config.stage.enforces_lease() {
                return Err(SafetyError::LeaseRequired);
            }
            self.state = SafetyState::Controlled;
        }
        let lease_dead = match self.lease_deadline_ms {
            Some(deadline) => now_ms >= deadline,
            None => true,
        };
        if self.config.stage.enforces_lease() && lease_dead {
            self.latch_fault(FaultReason::LeaseExpired);
            return Err(SafetyError::LeaseExpired);
        }
        Ok(())
    }

    fn ensure_not_faulted(&self) -> (result: Result<(), SafetyError>)
        ensures
            result == (if self@.is_faulted() {
                Err(SafetyError::FaultLatched)
            } else {
                Ok::<(), SafetyError>(())
            }),
    {
        if matches!(self.state, SafetyState::FaultLatched) {
            Err(SafetyError::FaultLatched)
        } else {
            Ok(())
        }
    }

    fn latch_fault(&mut self, reason: FaultReason)
        ensures
            final(self)@ == old(self)@.latched(reason),
    {
        self.state = SafetyState::FaultLatched;
        self.fault = reason;
        self.requested_outputs = SafetyOutputs::safe();
        self.lease_deadline_ms = None;
    }
}

} // verus!
