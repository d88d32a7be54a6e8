//! The CiA 402 drive profile: the control word sent to a drive, the status
//! word read from it, the drive states and the command that moves a drive
//! towards operation.
use vstd::prelude::*;

verus! {

/// The control word (object 0x6040:00), bit 0 first.
#[derive(Clone, Copy, Debug, PartialEq, Eq, Structural)]
pub struct ControlWord {
    pub switch_on: bool,
    pub enable_voltage: bool,
    pub quick_stop: bool,
    pub enable_op: bool,
    pub op_specific_1: bool,
    pub op_specific_2: bool,
    pub op_specific_3: bool,
    pub reset_fault: bool,
    pub halt: bool,
    pub op_specific_4: bool,
    pub bit_10: bool,
    pub bit_11: bool,
    pub bit_12: bool,
    pub bit_13: bool,
    pub bit_14: bool,
    pub bit_15: bool,
}

/// Object index and subindex of the control word.
pub const CONTROL_WORD_INDEX: u16 = 0x6040;
pub const CONTROL_WORD_SUBINDEX: u8 = 0x00;

/// Object index and subindex of the status word.
pub const STATUS_WORD_INDEX: u16 = 0x6041;
pub const STATUS_WORD_SUBINDEX: u8 = 0x00;

/// `w` when `b` holds, else 0.
#[verifier::opaque]
pub open spec fn spec_weight(b: bool, w: int) -> int {
    if b {
        w
    } else {
        0
    }
}

/// `w` when `b` holds, else 0.
fn weight(b: bool, w: u32) -> (r: u32)
    ensures
        r == spec_weight(b, w as int),
        r <= w,
{
    reveal(spec_weight);
    if b {
        w
    } else {
        0
    }
}

impl ControlWord {
    /// The 16-bit value of the control word: field `k` (in declaration order) is bit `k`.
    pub open spec fn spec_value(self) -> int {
        spec_weight(self.switch_on, 1)
            + spec_weight(self.enable_voltage, 2)
            + spec_weight(self.quick_stop, 4)
            + spec_weight(self.enable_op, 8)
            + spec_weight(self.op_specific_1, 16)
            + spec_weight(self.op_specific_2, 32)
            + spec_weight(self.op_specific_3, 64)
            + spec_weight(self.reset_fault, 128)
            + spec_weight(self.halt, 256)
            + spec_weight(self.op_specific_4, 512)
            + spec_weight(self.bit_10, 1024)
            + spec_weight(self.bit_11, 2048)
            + spec_weight(self.bit_12, 4096)
            + spec_weight(self.bit_13, 8192)
            + spec_weight(self.bit_14, 16384)
            + spec_weight(self.bit_15, 32768)
    }

    /// The control word with every bit clear.
    pub fn default() -> (c: ControlWord)
        ensures
            c.spec_value() == 0,
            c == (ControlWord { switch_on: false, enable_voltage: false, quick_stop: false, enable_op: false, op_specific_1: false, op_specific_2: false, op_specific_3: false, reset_fault: false, halt: false, op_specific_4: false, bit_10: false, bit_11: false, bit_12: false, bit_13: false, bit_14: false, bit_15: false }),
    {
        reveal(spec_weight);
        ControlWord { switch_on: false, enable_voltage: false, quick_stop: false, enable_op: false, op_specific_1: false, op_specific_2: false, op_specific_3: false, reset_fault: false, halt: false, op_specific_4: false, bit_10: false, bit_11: false, bit_12: false, bit_13: false, bit_14: false, bit_15: false }
    }

    /// Shutdown: enable voltage and quick stop.
    pub fn state_shutdown() -> (c: ControlWord)
        ensures
            c == (ControlWord { switch_on: false, enable_voltage: true, quick_stop: true, enable_op: false, op_specific_1: false, op_specific_2: false, op_specific_3: false, reset_fault: false, halt: false, op_specific_4: false, bit_10: false, bit_11: false, bit_12: false, bit_13: false, bit_14: false, bit_15: false }),
    {
        ControlWord { switch_on: false, enable_voltage: true, quick_stop: true, enable_op: false, op_specific_1: false, op_specific_2: false, op_specific_3: false, reset_fault: false, halt: false, op_specific_4: false, bit_10: false, bit_11: false, bit_12: false, bit_13: false, bit_14: false, bit_15: false }
    }

    /// Switch on: switch on, enable voltage and quick stop.
    pub fn state_switch_on() -> (c: ControlWord)
        ensures
            c == (ControlWord { switch_on: true, enable_voltage: true, quick_stop: true, enable_op: false, op_specific_1: false, op_specific_2: false, op_specific_3: false, reset_fault: false, halt: false, op_specific_4: false, bit_10: false, bit_11: false, bit_12: false, bit_13: false, bit_14: false, bit_15: false }),
    {
        ControlWord { switch_on: true, enable_voltage: true, quick_stop: true, enable_op: false, op_specific_1: false, op_specific_2: false, op_specific_3: false, reset_fault: false, halt: false, op_specific_4: false, bit_10: false, bit_11: false, bit_12: false, bit_13: false, bit_14: false, bit_15: false }
    }

    /// Enable operation: switch on, enable voltage, quick stop and enable operation.
    pub fn state_enable_operation() -> (c: ControlWord)
        ensures
            c == (ControlWord { switch_on: true, enable_voltage: true, quick_stop: true, enable_op: true, op_specific_1: false, op_specific_2: false, op_specific_3: false, reset_fault: false, halt: false, op_specific_4: false, bit_10: false, bit_11: false, bit_12: false, bit_13: false, bit_14: false, bit_15: false }),
    {
        ControlWord { switch_on: true, enable_voltage: true, quick_stop: true, enable_op: true, op_specific_1: false, op_specific_2: false, op_specific_3: false, reset_fault: false, halt: false, op_specific_4: false, bit_10: false, bit_11: false, bit_12: false, bit_13: false, bit_14: false, bit_15: false }
    }

    /// Disable operation: switch on, enable voltage and quick stop, operation not enabled.
    pub fn state_disable_operation() -> (c: ControlWord)
        ensures
            c == (ControlWord { switch_on: true, enable_voltage: true, quick_stop: true, enable_op: false, op_specific_1: false, op_specific_2: false, op_specific_3: false, reset_fault: false, halt: false, op_specific_4: false, bit_10: false, bit_11: false, bit_12: false, bit_13: false, bit_14: false, bit_15: false }),
    {
        ControlWord { switch_on: true, enable_voltage: true, quick_stop: true, enable_op: false, op_specific_1: false, op_specific_2: false, op_specific_3: false, reset_fault: false, halt: false, op_specific_4: false, bit_10: false, bit_11: false, bit_12: false, bit_13: false, bit_14: false, bit_15: false }
    }

    /// Disable voltage: every bit clear (the drive coasts).
    pub fn disable_voltage() -> (c: ControlWord)
        ensures
            c == (ControlWord { switch_on: false, enable_voltage: false, quick_stop: false, enable_op: false, op_specific_1: false, op_specific_2: false, op_specific_3: false, reset_fault: false, halt: false, op_specific_4: false, bit_10: false, bit_11: false, bit_12: false, bit_13: false, bit_14: false, bit_15: false }),
    {
        ControlWord { switch_on: false, enable_voltage: false, quick_stop: false, enable_op: false, op_specific_1: false, op_specific_2: false, op_specific_3: false, reset_fault: false, halt: false, op_specific_4: false, bit_10: false, bit_11: false, bit_12: false, bit_13: false, bit_14: false, bit_15: false }
    }

    /// Quick stop: enable voltage with the (active-low) quick-stop bit clear.
    pub fn quick_stop() -> (c: ControlWord)
        ensures
            c == (ControlWord { switch_on: false, enable_voltage: true, quick_stop: false, enable_op: false, op_specific_1: false, op_specific_2: false, op_specific_3: false, reset_fault: false, halt: false, op_specific_4: false, bit_10: false, bit_11: false, bit_12: false, bit_13: false, bit_14: false, bit_15: false }),
    {
        ControlWord { switch_on: false, enable_voltage: true, quick_stop: false, enable_op: false, op_specific_1: false, op_specific_2: false, op_specific_3: false, reset_fault: false, halt: false, op_specific_4: false, bit_10: false, bit_11: false, bit_12: false, bit_13: false, bit_14: false, bit_15: false }
    }

    /// Fault reset: the reset-fault bit alone.
    pub fn fault_reset() -> (c: ControlWord)
        ensures
            c == (ControlWord { switch_on: false, enable_voltage: false, quick_stop: false, enable_op: false, op_specific_1: false, op_specific_2: false, op_specific_3: false, reset_fault: true, halt: false, op_specific_4: false, bit_10: false, bit_11: false, bit_12: false, bit_13: false, bit_14: false, bit_15: false }),
    {
        ControlWord { switch_on: false, enable_voltage: false, quick_stop: false, enable_op: false, op_specific_1: false, op_specific_2: false, op_specific_3: false, reset_fault: true, halt: false, op_specific_4: false, bit_10: false, bit_11: false, bit_12: false, bit_13: false, bit_14: false, bit_15: false }
    }

    /// The 16-bit value of the control word.
    pub fn to_u16(&self) -> (r: u16)
        ensures
            r as int == self.spec_value(),
    {
        let v: u32 = weight(self.switch_on, 1) + weight(self.enable_voltage, 2) + weight(self.quick_stop, 4) + weight(self.enable_op, 8) + weight(self.op_specific_1, 16) + weight(self.op_specific_2, 32) + weight(self.op_specific_3, 64) + weight(self.reset_fault, 128) + weight(self.halt, 256) + weight(self.op_specific_4, 512) + weight(self.bit_10, 1024) + weight(self.bit_11, 2048) + weight(self.bit_12, 4096) + weight(self.bit_13, 8192) + weight(self.bit_14, 16384) + weight(self.bit_15, 32768);
        v as u16
    }

    /// The two bytes of the control word on the wire, least significant first.
    pub fn to_bytes(&self) -> (r: [u8; 2])
        ensures
            r[0] as int == self.spec_value() % 256,
            r[1] as int == self.spec_value() / 256,
    {
        let v = self.to_u16();
        [(v % 256) as u8, (v / 256) as u8]
    }
}

/// The status word (object 0x6041:00), bit 0 first.
#[derive(Clone, Copy, Debug, PartialEq, Eq, Structural)]
pub struct StatusWord {
    pub state_ready_to_switch_on: bool,
    pub state_switched_on: bool,
    pub state_operation_enabled: bool,
    pub state_fault: bool,
    pub voltage_enabled: bool,
    pub state_quick_stop: bool,
    pub state_switch_on_disabled: bool,
    pub warning: bool,
    pub halt_request_active: bool,
    pub remote: bool,
    pub target_reached: bool,
    pub internal_limit_active: bool,
    pub application_specific_1: bool,
    pub application_specific_2: bool,
    pub application_specific_3: bool,
    pub application_specific_4: bool,
}

/// Whether bit `k` of `w` is set.
pub open spec fn spec_bit(w: int, k: nat) -> bool {
    (w / vstd::arithmetic::power2::pow2(k) as int) % 2 == 1
}

/// Whether bit `k` of `w` is set.
fn bit(w: u16, k: u16) -> (r: bool)
    requires
        k < 16,
    ensures
        r == spec_bit(w as int, k as nat),
{
    proof {
        vstd::arithmetic::power2::lemma2_to64();
    }
    let d: u16 = if k == 0 { 1 } else if k == 1 { 2 } else if k == 2 { 4 } else if k == 3 { 8 }
        else if k == 4 { 16 } else if k == 5 { 32 } else if k == 6 { 64 } else if k == 7 { 128 }
        else if k == 8 { 256 } else if k == 9 { 512 } else if k == 10 { 1024 } else if k == 11 { 2048 }
        else if k == 12 { 4096 } else if k == 13 { 8192 } else if k == 14 { 16384 } else { 32768 };
    (w / d) % 2 == 1
}

impl StatusWord {
    /// The status word whose bit `k` is field `k` (in declaration order) of the result.
    pub open spec fn spec_from_value(w: int) -> StatusWord {
        StatusWord {
            state_ready_to_switch_on: spec_bit(w, 0),
            state_switched_on: spec_bit(w, 1),
            state_operation_enabled: spec_bit(w, 2),
            state_fault: spec_bit(w, 3),
            voltage_enabled: spec_bit(w, 4),
            state_quick_stop: spec_bit(w, 5),
            state_switch_on_disabled: spec_bit(w, 6),
            warning: spec_bit(w, 7),
            halt_request_active: spec_bit(w, 8),
            remote: spec_bit(w, 9),
            target_reached: spec_bit(w, 10),
            internal_limit_active: spec_bit(w, 11),
            application_specific_1: spec_bit(w, 12),
            application_specific_2: spec_bit(w, 13),
            application_specific_3: spec_bit(w, 14),
            application_specific_4: spec_bit(w, 15),
        }
    }

    /// Reads the status word from its 16-bit value.
    pub fn from_u16(w: u16) -> (s: StatusWord)
        ensures
            s == StatusWord::spec_from_value(w as int),
    {
        StatusWord {
            state_ready_to_switch_on: bit(w, 0),
            state_switched_on: bit(w, 1),
            state_operation_enabled: bit(w, 2),
            state_fault: bit(w, 3),
            voltage_enabled: bit(w, 4),
            state_quick_stop: bit(w, 5),
            state_switch_on_disabled: bit(w, 6),
            warning: bit(w, 7),
            halt_request_active: bit(w, 8),
            remote: bit(w, 9),
            target_reached: bit(w, 10),
            internal_limit_active: bit(w, 11),
            application_specific_1: bit(w, 12),
            application_specific_2: bit(w, 13),
            application_specific_3: bit(w, 14),
            application_specific_4: bit(w, 15),
        }
    }

    /// Reads the status word from its two bytes on the wire, least significant first.
    pub fn from_bytes(b: [u8; 2]) -> (s: StatusWord)
        ensures
            s == StatusWord::spec_from_value(b[0] as int + 256 * b[1] as int),
    {
        StatusWord::from_u16(b[0] as u16 + 256 * b[1] as u16)
    }
}

/// The states of a CiA 402 drive.
#[derive(Clone, Copy, Debug, PartialEq, Eq, Structural)]
pub enum State {
    NotReadyToSwitchOn,
    SwitchOnDisabled,
    ReadyToSwitchOn,
    SwitchedOn,
    OperationEnabled,
    QuickStopActive,
    FaultReactionActive,
    Fault,
}

impl State {
    /// The number of the state in the profile (1 to 8).
    pub open spec fn spec_code(self) -> u8 {
        match self {
            State::NotReadyToSwitchOn => 1,
            State::SwitchOnDisabled => 2,
            State::ReadyToSwitchOn => 3,
            State::SwitchedOn => 4,
            State::OperationEnabled => 5,
            State::QuickStopActive => 6,
            State::FaultReactionActive => 7,
            State::Fault => 8,
        }
    }

    pub fn code(&self) -> (r: u8)
        ensures
            r == self.spec_code(),
    {
        match self {
            State::NotReadyToSwitchOn => 1,
            State::SwitchOnDisabled => 2,
            State::ReadyToSwitchOn => 3,
            State::SwitchedOn => 4,
            State::OperationEnabled => 5,
            State::QuickStopActive => 6,
            State::FaultReactionActive => 7,
            State::Fault => 8,
        }
    }
}

/// The state a status word reports.
pub open spec fn spec_parse_state(w: StatusWord) -> State {
    if w.state_fault {
        if w.state_operation_enabled && w.state_switched_on && w.state_ready_to_switch_on {
            State::FaultReactionActive
        } else {
            State::Fault
        }
    } else if !w.state_ready_to_switch_on && !w.state_switched_on && !w.state_operation_enabled
        && !w.state_switch_on_disabled {
        State::NotReadyToSwitchOn
    } else if w.state_switch_on_disabled {
        State::SwitchOnDisabled
    } else if !w.state_quick_stop {
        State::QuickStopActive
    } else if w.state_ready_to_switch_on && !w.state_switched_on {
        State::ReadyToSwitchOn
    } else if w.state_ready_to_switch_on && w.state_switched_on && w.voltage_enabled {
        if w.state_operation_enabled {
            State::OperationEnabled
        } else {
            State::SwitchedOn
        }
    } else {
        State::NotReadyToSwitchOn
    }
}

impl StatusWord {
    /// The state the status word reports.
    ///
    /// ```text
    /// Bit 6 | Bit 5 | Bit 4 | Bit 3 | Bit 2 | Bit 1 | Bit 0 | State
    ///   0   |   x   |   x   |   0   |   0   |   0   |   0   | Not ready to switch on
    ///   1   |   x   |   x   |   0   |   0   |   0   |   0   | Switch on disabled
    ///   0   |   1   |   x   |   0   |   0   |   0   |   1   | Ready to switch on
    ///   0   |   1   |   1   |   0   |   0   |   1   |   1   | Switched on
    ///   0   |   1   |   1   |   0   |   1   |   1   |   1   | Operation enabled
    ///   0   |   0   |   1   |   0   |   1   |   1   |   1   | Quick stop active
    ///   0   |   x   |   x   |   1   |   1   |   1   |   1   | Fault reaction active
    ///   0   |   x   |   x   |   1   |   0   |   0   |   0   | Fault
    /// ```
    /// (bit 6 switch on disabled, 5 quick stop, 4 voltage enabled, 3 fault,
    /// 2 operation enabled, 1 switched on, 0 ready to switch on)
    pub fn parse_state(&self) -> (s: State)
        ensures
            s == spec_parse_state(*self),
    {
        if self.state_fault {
            if self.state_operation_enabled && self.state_switched_on
                && self.state_ready_to_switch_on {
                return State::FaultReactionActive;
            }
            return State::Fault;
        }
        if !self.state_ready_to_switch_on && !self.state_switched_on
            && !self.state_operation_enabled && !self.state_switch_on_disabled {
            return State::NotReadyToSwitchOn;
        }
        if self.state_switch_on_disabled {
            return State::SwitchOnDisabled;
        }
        if !self.state_quick_stop {
            return State::QuickStopActive;
        }
        if self.state_ready_to_switch_on && self.state_quick_stop && !self.state_switched_on {
            return State::ReadyToSwitchOn;
        }
        if self.state_ready_to_switch_on && self.state_switched_on && self.voltage_enabled {
            if self.state_operation_enabled {
                return State::OperationEnabled;
            }
            return State::SwitchedOn;
        }
        return State::NotReadyToSwitchOn;
    }
}

/// Every row of the status word table is read as the state the row names.
pub proof fn lemma_status_table(w: StatusWord)
    ensures
        (!w.state_switch_on_disabled && !w.state_fault && !w.state_operation_enabled
            && !w.state_switched_on && !w.state_ready_to_switch_on) ==> spec_parse_state(w)
            == State::NotReadyToSwitchOn,
        (w.state_switch_on_disabled && !w.state_fault && !w.state_operation_enabled
            && !w.state_switched_on && !w.state_ready_to_switch_on) ==> spec_parse_state(w)
            == State::SwitchOnDisabled,
        (!w.state_switch_on_disabled && w.state_quick_stop && !w.state_fault
            && !w.state_operation_enabled && !w.state_switched_on && w.state_ready_to_switch_on)
            ==> spec_parse_state(w) == State::ReadyToSwitchOn,
        (!w.state_switch_on_disabled && w.state_quick_stop && w.voltage_enabled && !w.state_fault
            && !w.state_operation_enabled && w.state_switched_on && w.state_ready_to_switch_on)
            ==> spec_parse_state(w) == State::SwitchedOn,
        (!w.state_switch_on_disabled && w.state_quick_stop && w.voltage_enabled && !w.state_fault
            && w.state_operation_enabled && w.state_switched_on && w.state_ready_to_switch_on)
            ==> spec_parse_state(w) == State::OperationEnabled,
        (!w.state_switch_on_disabled && !w.state_quick_stop && w.voltage_enabled && !w.state_fault
            && w.state_operation_enabled && w.state_switched_on && w.state_ready_to_switch_on)
            ==> spec_parse_state(w) == State::QuickStopActive,
        (!w.state_switch_on_disabled && w.state_fault && w.state_operation_enabled
            && w.state_switched_on && w.state_ready_to_switch_on) ==> spec_parse_state(w)
            == State::FaultReactionActive,
        (!w.state_switch_on_disabled && w.state_fault && !w.state_operation_enabled
            && !w.state_switched_on && !w.state_ready_to_switch_on) ==> spec_parse_state(w)
            == State::Fault,
{
}

/// What the master wants the drive to do.
#[derive(Clone, Copy, Debug, PartialEq, Eq, Structural)]
pub enum TransitionAction {
    /// No request: the drive is held where it is.
    NoAction,
    Run,
    Stop,
    QuickStop,
    FreewheelStop,
    Reset,
}

/// The control word sent to a drive in `current_state` for `action`;
/// `auto_reset_allowed` lets a fault be reset without a `Reset` request.
pub open spec fn spec_transition(
    current_state: State,
    action: TransitionAction,
    auto_reset_allowed: bool,
) -> ControlWord {
    match current_state {
        State::SwitchOnDisabled => spec_shutdown(),
        State::SwitchedOn | State::ReadyToSwitchOn => if action == TransitionAction::Run {
            spec_enable_operation()
        } else {
            spec_disable_operation()
        },
        State::OperationEnabled => if action == TransitionAction::QuickStop {
            spec_quick_stop()
        } else if action == TransitionAction::FreewheelStop {
            spec_disable_voltage()
        } else if action != TransitionAction::Run {
            spec_disable_operation()
        } else {
            spec_enable_operation()
        },
        State::Fault => if action == TransitionAction::Reset || auto_reset_allowed {
            spec_fault_reset()
        } else {
            spec_shutdown()
        },
        State::QuickStopActive => if action == TransitionAction::QuickStop {
            spec_quick_stop()
        } else {
            spec_disable_voltage()
        },
        State::NotReadyToSwitchOn => spec_shutdown(),
        State::FaultReactionActive => spec_disable_voltage(),
    }
}

pub open spec fn spec_control_word(bits: Seq<bool>) -> ControlWord {
    ControlWord {
        switch_on: bits[0],
        enable_voltage: bits[1],
        quick_stop: bits[2],
        enable_op: bits[3],
        op_specific_1: false,
        op_specific_2: false,
        op_specific_3: false,
        reset_fault: bits[4],
        halt: false,
        op_specific_4: false,
        bit_10: false,
        bit_11: false,
        bit_12: false,
        bit_13: false,
        bit_14: false,
        bit_15: false,
    }
}

/// Shutdown command.
pub open spec fn spec_shutdown() -> ControlWord {
    spec_control_word(seq![false, true, true, false, false])
}

/// Enable-operation command.
pub open spec fn spec_enable_operation() -> ControlWord {
    spec_control_word(seq![true, true, true, true, false])
}

/// Disable-operation command.
pub open spec fn spec_disable_operation() -> ControlWord {
    spec_control_word(seq![true, true, true, false, false])
}

/// Disable-voltage command.
pub open spec fn spec_disable_voltage() -> ControlWord {
    spec_control_word(seq![false, false, false, false, false])
}

/// Quick-stop command.
pub open spec fn spec_quick_stop() -> ControlWord {
    spec_control_word(seq![false, true, false, false, false])
}

/// Fault-reset command.
pub open spec fn spec_fault_reset() -> ControlWord {
    spec_control_word(seq![false, false, false, false, true])
}

/// The control word that moves a drive in `current_state` as `action` asks:
/// towards operation for `Run`, out of a fault when a reset is requested or
/// allowed, and otherwise to a standstill.
pub fn transition(
    current_state: State,
    action: TransitionAction,
    auto_reset_allowed: bool,
) -> (c: ControlWord)
    ensures
        c == spec_transition(current_state, action, auto_reset_allowed),
{
    match current_state {
        State::SwitchOnDisabled => ControlWord::state_shutdown(),
        State::SwitchedOn | State::ReadyToSwitchOn => {
            if action == TransitionAction::Run {
                return ControlWord::state_enable_operation();
            }
            ControlWord::state_disable_operation()
        },
        State::OperationEnabled => {
            if action == TransitionAction::QuickStop {
                return ControlWord::quick_stop();
            }
            if action == TransitionAction::FreewheelStop {
                return ControlWord::disable_voltage();
            }
            if action != TransitionAction::Run {
                return ControlWord::state_disable_operation();
            }
            ControlWord::state_enable_operation()
        },
        State::Fault => {
            if action == TransitionAction::Reset || auto_reset_allowed {
                return ControlWord::fault_reset();
            }
            ControlWord::state_shutdown()
        },
        State::QuickStopActive => {
            if action == TransitionAction::QuickStop {
                return ControlWord::quick_stop();
            }
            ControlWord::disable_voltage()
        },
        State::NotReadyToSwitchOn => ControlWord::state_shutdown(),
        State::FaultReactionActive => ControlWord::disable_voltage(),
    }
}

/// A fault is reset only from the `Fault` state, and there only when a reset
/// is requested or automatic reset is allowed.
pub proof fn lemma_reset_only_from_fault(s: State, a: TransitionAction, auto_reset_allowed: bool)
    ensures
        spec_transition(s, a, auto_reset_allowed).reset_fault <==> (s == State::Fault && (a
            == TransitionAction::Reset || auto_reset_allowed)),
{
}

/// Operation is enabled only on a `Run` request, from a drive that is ready
/// to switch on, switched on or already operating.
pub proof fn lemma_enable_only_on_run(s: State, a: TransitionAction, auto_reset_allowed: bool)
    ensures
        spec_transition(s, a, auto_reset_allowed).enable_op <==> (a == TransitionAction::Run && (s
            == State::ReadyToSwitchOn || s == State::SwitchedOn || s == State::OperationEnabled)),
{
}

/// The control word sent for each state and request, as its 16-bit value:
/// shutdown (0x0006) from `SwitchOnDisabled` and `NotReadyToSwitchOn`;
/// enable operation (0x000F) on `Run` from `ReadyToSwitchOn`, `SwitchedOn`
/// and `OperationEnabled`, otherwise switch on / disable operation (0x0007)
/// from the first two; from `OperationEnabled` quick stop (0x0002) on
/// `QuickStop`, disable voltage (0x0000) on `FreewheelStop` and disable
/// operation (0x0007) on any other request but `Run`; from `Fault` fault
/// reset (0x0080) on `Reset` or when automatic reset is allowed, shutdown
/// (0x0006) otherwise; from `QuickStopActive` quick stop (0x0002) on
/// `QuickStop` and disable voltage (0x0000) otherwise; disable voltage
/// (0x0000) from `FaultReactionActive`.
pub proof fn lemma_transition_values(a: TransitionAction, r: bool)
    ensures
        spec_transition(State::SwitchOnDisabled, a, r).spec_value() == 0x0006,
        spec_transition(State::NotReadyToSwitchOn, a, r).spec_value() == 0x0006,
        spec_transition(State::ReadyToSwitchOn, a, r).spec_value() == (if a == TransitionAction::Run {
            0x000Fint
        } else {
            0x0007int
        }),
        spec_transition(State::SwitchedOn, a, r).spec_value() == (if a == TransitionAction::Run {
            0x000Fint
        } else {
            0x0007int
        }),
        spec_transition(State::OperationEnabled, a, r).spec_value() == (if a
            == TransitionAction::QuickStop {
            0x0002int
        } else if a == TransitionAction::FreewheelStop {
            0x0000int
        } else if a == TransitionAction::Run {
            0x000Fint
        } else {
            0x0007int
        }),
        spec_transition(State::Fault, a, r).spec_value() == (if a == TransitionAction::Reset || r {
            0x0080int
        } else {
            0x0006int
        }),
        spec_transition(State::QuickStopActive, a, r).spec_value() == (if a
            == TransitionAction::QuickStop {
            0x0002int
        } else {
            0x0000int
        }),
        spec_transition(State::FaultReactionActive, a, r).spec_value() == 0x0000,
{
    reveal(spec_weight);
}

/// From `OperationEnabled` the quick-stop command (quick-stop bit cleared
/// with voltage enabled) is sent exactly on a `QuickStop` request, and a
/// `Stop` request ramps down to `SwitchedOn`: switch on and voltage and
/// quick stop set, operation disabled.
pub proof fn lemma_operation_enabled_stops(a: TransitionAction, r: bool)
    ensures
        (!spec_transition(State::OperationEnabled, a, r).quick_stop && spec_transition(
            State::OperationEnabled,
            a,
            r,
        ).enable_voltage) <==> a == TransitionAction::QuickStop,
        spec_transition(State::OperationEnabled, TransitionAction::Stop, r).switch_on,
        spec_transition(State::OperationEnabled, TransitionAction::Stop, r).enable_voltage,
        spec_transition(State::OperationEnabled, TransitionAction::Stop, r).quick_stop,
        !spec_transition(State::OperationEnabled, TransitionAction::Stop, r).enable_op,
{
}

} // verus!
