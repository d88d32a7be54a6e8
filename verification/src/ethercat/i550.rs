//! The Lenze i550 frequency inverter: its configuration, the object writes
//! that set it up, and one cycle of its process data.
use crate::ethercat::cia402::{
    ControlWord, State, StatusWord, TransitionAction, spec_parse_state, spec_transition,
    spec_weight, transition,
};
use crate::ethercat::i550_error::I550Error;
use crate::ethercat::devices::Index;
use vstd::prelude::*;

verus! {

/// A value written to a CoE object.
#[derive(Clone, Copy, Debug, PartialEq, Eq, Structural)]
pub enum SdoValue {
    U8(u8),
    U16(u16),
    U32(u32),
}

/// A write of a value to a CoE object.
#[derive(Clone, Copy, Debug, PartialEq, Eq, Structural)]
pub struct SdoWrite {
    pub index: u16,
    pub subindex: u8,
    pub value: SdoValue,
}

/// The rated mains voltage (object 0x2540:01).
#[derive(Clone, Copy, Debug, PartialEq, Eq, Structural)]
pub enum RatedMainsVoltage {
    Veff230,
    Veff400,
    Veff480,
    Veff120,
    Veff230ReducedLuLevel,
}

impl RatedMainsVoltage {
    pub open spec fn spec_code(self) -> u8 {
        match self {
            RatedMainsVoltage::Veff230 => 0,
            RatedMainsVoltage::Veff400 => 1,
            RatedMainsVoltage::Veff480 => 2,
            RatedMainsVoltage::Veff120 => 3,
            RatedMainsVoltage::Veff230ReducedLuLevel => 10,
        }
    }

    /// The value written to the inverter.
    pub fn code(&self) -> (r: u8)
        ensures
            r == self.spec_code(),
    {
        match self {
            RatedMainsVoltage::Veff230 => 0,
            RatedMainsVoltage::Veff400 => 1,
            RatedMainsVoltage::Veff480 => 2,
            RatedMainsVoltage::Veff120 => 3,
            RatedMainsVoltage::Veff230ReducedLuLevel => 10,
        }
    }
}

/// The mode of analog input 1 (object 0x2636:01).
#[derive(Clone, Copy, Debug, PartialEq, Eq, Structural)]
pub enum AnalogInput1 {
    VDC0To10,
    VDC0To5,
    VDC2To10,
    VDCNeg10ToPos10,
    MilliAmp4To20,
    MilliAmp0To20,
}

impl AnalogInput1 {
    pub open spec fn spec_code(self) -> u8 {
        match self {
            AnalogInput1::VDC0To10 => 0,
            AnalogInput1::VDC0To5 => 1,
            AnalogInput1::VDC2To10 => 2,
            AnalogInput1::VDCNeg10ToPos10 => 3,
            AnalogInput1::MilliAmp4To20 => 4,
            AnalogInput1::MilliAmp0To20 => 5,
        }
    }

    /// The value written to the inverter.
    pub fn code(&self) -> (r: u8)
        ensures
            r == self.spec_code(),
    {
        match self {
            AnalogInput1::VDC0To10 => 0,
            AnalogInput1::VDC0To5 => 1,
            AnalogInput1::VDC2To10 => 2,
            AnalogInput1::VDCNeg10ToPos10 => 3,
            AnalogInput1::MilliAmp4To20 => 4,
            AnalogInput1::MilliAmp0To20 => 5,
        }
    }
}

/// Rated mains voltage is object 0x2540:01.
impl Index for RatedMainsVoltage {
    open spec fn spec_index() -> u16 {
        0x2540
    }

    open spec fn spec_subindex() -> u8 {
        0x01
    }

    fn index() -> (r: u16) {
        0x2540
    }

    fn subindex() -> (r: u8) {
        0x01
    }
}

/// The mode of analog input 1 is object 0x2636:01.
impl Index for AnalogInput1 {
    open spec fn spec_index() -> u16 {
        0x2636
    }

    open spec fn spec_subindex() -> u8 {
        0x01
    }

    fn index() -> (r: u16) {
        0x2636
    }

    fn subindex() -> (r: u8) {
        0x01
    }
}

/// The motor and drive parameters of an inverter (the speed ratio, a float,
/// is kept by the caller).
#[derive(Clone, Copy, Debug, PartialEq, Eq, Structural)]
pub struct I550Config {
    pub rated_mains_voltage: RatedMainsVoltage,
    /// Volts (0x2B01:01).
    pub base_voltage: u16,
    /// Hertz (0x2B01:02).
    pub base_frequency: u16,
    /// RPM (0x6080:00).
    pub max_speed: u32,
    /// RPM (0x6046:01).
    pub min_speed: u32,
    /// RPM (0x6048:01).
    pub acceleration_numerator: u32,
    /// Seconds (0x6048:02).
    pub acceleration_denominator: u16,
    /// RPM (0x6049:01).
    pub deceleration_numerator: u32,
    /// Seconds (0x6049:02).
    pub deceleration_denominator: u16,
    /// Ten-thousandths of an ohm (0x2C01:02).
    pub stator_resistance: Option<u32>,
    /// Thousandths of a millihenry (0x2C01:03).
    pub stator_leakage_inductance: Option<u32>,
    /// RPM (0x2C01:04).
    pub rated_speed: u16,
    /// Decihertz (0x2C01:05).
    pub rated_frequency: u16,
    /// Centiwatts (0x2C01:06).
    pub rated_power: u16,
    /// Volts (0x2C01:07).
    pub rated_voltage: u16,
    /// Milliampere (0x6075:00).
    pub rated_current: u32,
    /// Cosine phi times 100 (0x2C01:08).
    pub cosine_phi: u16,
    /// Percent of rated current times 10 (0x6073:00).
    pub max_current: u16,
    pub analog_input_1: AnalogInput1,
}

impl I550Config {
    /// The parameters of the motor the framework ships for.
    pub fn default() -> (c: I550Config)
        ensures
            c == (I550Config {
                rated_mains_voltage: RatedMainsVoltage::Veff400,
                base_voltage: 400,
                base_frequency: 50,
                max_speed: 6075,
                min_speed: 0,
                acceleration_numerator: 3000,
                acceleration_denominator: 10,
                deceleration_numerator: 3000,
                deceleration_denominator: 10,
                stator_resistance: None,
                stator_leakage_inductance: None,
                rated_speed: 1450,
                rated_frequency: 500,
                rated_power: 750,
                rated_voltage: 400,
                rated_current: 1700,
                cosine_phi: 80,
                max_current: 2000,
                analog_input_1: AnalogInput1::MilliAmp4To20,
            }),
    {
        I550Config {
            rated_mains_voltage: RatedMainsVoltage::Veff400,
            base_voltage: 400,
            base_frequency: 50,
            max_speed: 6075,
            min_speed: 0,
            acceleration_numerator: 3000,
            acceleration_denominator: 10,
            deceleration_numerator: 3000,
            deceleration_denominator: 10,
            stator_resistance: None,
            stator_leakage_inductance: None,
            rated_speed: 1450,
            rated_frequency: 500,
            rated_power: 750,
            rated_voltage: 400,
            rated_current: 1700,
            cosine_phi: 80,
            max_current: 2000,
            analog_input_1: AnalogInput1::MilliAmp4To20,
        }
    }
}

/// Object indices used in setting up the process data.
pub const RX_PDO_ASSIGN: u16 = 0x1C12;
pub const TX_PDO_ASSIGN: u16 = 0x1C13;
pub const RX_PDO_MAPPING: u16 = 0x1605;
pub const TX_PDO_MAPPING: u16 = 0x1A05;
pub const BASIC_MOTOR_CONTROL: u16 = 0x2631;

pub open spec fn w(index: u16, subindex: u8, value: SdoValue) -> SdoWrite {
    SdoWrite { index, subindex, value }
}

/// The fixed part of the setup: reset the fault, map the process data
/// (control word and speed out; status word, speed, error, current,
/// frequency, digital inputs and analog input 1 in), select velocity mode
/// and enable the inverter.
pub open spec fn spec_mapping_writes() -> Seq<SdoWrite> {
    seq![
        w(0x2631, 4, SdoValue::U8(1)),
        w(0x1C12, 0, SdoValue::U8(0)),
        w(0x1C13, 0, SdoValue::U8(0)),
        w(0x1605, 0, SdoValue::U8(0)),
        w(0x1605, 1, SdoValue::U32(0x60400010)),
        w(0x1605, 2, SdoValue::U32(0x60420010)),
        w(0x1605, 0, SdoValue::U8(2)),
        w(0x1A05, 0, SdoValue::U8(0)),
        w(0x1A05, 1, SdoValue::U32(0x60410010)),
        w(0x1A05, 2, SdoValue::U32(0x60440010)),
        w(0x1A05, 3, SdoValue::U32(0x603F0010)),
        w(0x1A05, 4, SdoValue::U32(0x2d880010)),
        w(0x1A05, 5, SdoValue::U32(0x2ddd0010)),
        w(0x1A05, 6, SdoValue::U32(0x60FD0020)),
        w(0x1A05, 7, SdoValue::U32(0x2DA40110)),
        w(0x1A05, 0, SdoValue::U8(7)),
        w(0x1C12, 1, SdoValue::U16(0x1605)),
        w(0x1C12, 0, SdoValue::U8(1)),
        w(0x1C13, 1, SdoValue::U16(0x1A05)),
        w(0x1C13, 0, SdoValue::U8(1)),
        w(0x6060, 0, SdoValue::U8(2)),
        w(0x2631, 1, SdoValue::U8(1)),
    ]
}

/// The writes that set up an inverter with `c`, in order: the mapping, then
/// the mains voltage, base voltage and frequency, maximum speed (to both
/// objects that hold it), minimum speed, acceleration, the stator values that
/// are given, and the mode of analog input 1 with its fault response off.
pub open spec fn spec_setup_writes(c: I550Config) -> Seq<SdoWrite> {
    let head = spec_mapping_writes() + seq![
        w(0x2540, 1, SdoValue::U8(c.rated_mains_voltage.spec_code())),
        w(0x2B01, 1, SdoValue::U16(c.base_voltage)),
        w(0x2B01, 2, SdoValue::U16(c.base_frequency)),
        w(0x6080, 0, SdoValue::U32(c.max_speed)),
        w(0x6046, 2, SdoValue::U32(c.max_speed)),
        w(0x6046, 1, SdoValue::U32(c.min_speed)),
        w(0x6048, 1, SdoValue::U32(c.acceleration_numerator)),
        w(0x6048, 2, SdoValue::U16(c.acceleration_denominator)),
    ];
    let resistance = match c.stator_resistance {
        Some(v) => seq![w(0x2C01, 2, SdoValue::U32(v))],
        None => seq![],
    };
    let inductance = match c.stator_leakage_inductance {
        Some(v) => seq![w(0x2C01, 3, SdoValue::U32(v))],
        None => seq![],
    };
    head + resistance + inductance + seq![
        w(0x2636, 1, SdoValue::U8(c.analog_input_1.spec_code())),
        w(0x2636, 10, SdoValue::U8(0)),
    ]
}

/// Setting up an inverter writes the mapping first, then the configuration:
/// the mains voltage, the base voltage and frequency, the maximum speed to
/// both objects that hold it, the minimum speed and the acceleration; each
/// stator value is written, after these, exactly when it is given; the last
/// two writes set the mode of analog input 1 and turn its fault response
/// off.
pub proof fn lemma_setup_writes_config(c: I550Config)
    ensures
        ({
            let t = spec_setup_writes(c);
            let extra: int = (if c.stator_resistance is Some { 1int } else { 0int }) + (
            if c.stator_leakage_inductance is Some {
                1int
            } else {
                0int
            });
            &&& t.len() == 32 + extra
            &&& t.subrange(0, 22) == spec_mapping_writes()
            &&& t[22] == w(0x2540, 1, SdoValue::U8(c.rated_mains_voltage.spec_code()))
            &&& t[23] == w(0x2B01, 1, SdoValue::U16(c.base_voltage))
            &&& t[24] == w(0x2B01, 2, SdoValue::U16(c.base_frequency))
            &&& t[25] == w(0x6080, 0, SdoValue::U32(c.max_speed))
            &&& t[26] == w(0x6046, 2, SdoValue::U32(c.max_speed))
            &&& t[27] == w(0x6046, 1, SdoValue::U32(c.min_speed))
            &&& t[28] == w(0x6048, 1, SdoValue::U32(c.acceleration_numerator))
            &&& t[29] == w(0x6048, 2, SdoValue::U16(c.acceleration_denominator))
            &&& (c.stator_resistance matches Some(v) ==> t[30] == w(0x2C01, 2, SdoValue::U32(v)))
            &&& (c.stator_leakage_inductance matches Some(v) ==> t[t.len() - 3] == w(
                0x2C01,
                3,
                SdoValue::U32(v),
            ))
            &&& t[t.len() - 2] == w(0x2636, 1, SdoValue::U8(c.analog_input_1.spec_code()))
            &&& t[t.len() - 1] == w(0x2636, 10, SdoValue::U8(0))
        }),
{
    let t = spec_setup_writes(c);
    assert(spec_mapping_writes().len() == 22);
    assert(t.subrange(0, 22) =~= spec_mapping_writes());
}

fn push_write(v: &mut Vec<SdoWrite>, index: u16, subindex: u8, value: SdoValue)
    ensures
        final(v)@ == old(v)@.push(w(index, subindex, value)),
{
    v.push(SdoWrite { index, subindex, value });
}

/// The object writes that set up an inverter configured with `config`.
pub fn setup_writes(config: &I550Config) -> (r: Vec<SdoWrite>)
    ensures
        r@ == spec_setup_writes(*config),
{
    let mut v: Vec<SdoWrite> = Vec::new();
    push_write(&mut v, BASIC_MOTOR_CONTROL, 4, SdoValue::U8(1));
    push_write(&mut v, RX_PDO_ASSIGN, 0x00, SdoValue::U8(0));
    push_write(&mut v, TX_PDO_ASSIGN, 0x00, SdoValue::U8(0));
    push_write(&mut v, RX_PDO_MAPPING, 0x00, SdoValue::U8(0));
    push_write(&mut v, RX_PDO_MAPPING, 0x01, SdoValue::U32(0x60400010));
    push_write(&mut v, RX_PDO_MAPPING, 0x02, SdoValue::U32(0x60420010));
    push_write(&mut v, RX_PDO_MAPPING, 0x00, SdoValue::U8(2));
    push_write(&mut v, TX_PDO_MAPPING, 0x00, SdoValue::U8(0));
    push_write(&mut v, TX_PDO_MAPPING, 0x01, SdoValue::U32(0x60410010));
    push_write(&mut v, TX_PDO_MAPPING, 0x02, SdoValue::U32(0x60440010));
    push_write(&mut v, TX_PDO_MAPPING, 0x03, SdoValue::U32(0x603F0010));
    push_write(&mut v, TX_PDO_MAPPING, 0x04, SdoValue::U32(0x2d880010));
    push_write(&mut v, TX_PDO_MAPPING, 0x05, SdoValue::U32(0x2ddd0010));
    push_write(&mut v, TX_PDO_MAPPING, 0x06, SdoValue::U32(0x60FD0020));
    push_write(&mut v, TX_PDO_MAPPING, 0x07, SdoValue::U32(0x2DA40110));
    push_write(&mut v, TX_PDO_MAPPING, 0x00, SdoValue::U8(7));
    push_write(&mut v, RX_PDO_ASSIGN, 0x01, SdoValue::U16(RX_PDO_MAPPING));
    push_write(&mut v, RX_PDO_ASSIGN, 0x00, SdoValue::U8(1));
    push_write(&mut v, TX_PDO_ASSIGN, 0x01, SdoValue::U16(TX_PDO_MAPPING));
    push_write(&mut v, TX_PDO_ASSIGN, 0x00, SdoValue::U8(1));
    push_write(&mut v, 0x6060, 0, SdoValue::U8(2));
    push_write(&mut v, BASIC_MOTOR_CONTROL, 0x01, SdoValue::U8(1));
    proof {
        assert(v@ =~= spec_mapping_writes());
    }
    let ghost mapping = v@;
    push_write(
        &mut v,
        RatedMainsVoltage::index(),
        RatedMainsVoltage::subindex(),
        SdoValue::U8(config.rated_mains_voltage.code()),
    );
    push_write(&mut v, 0x2B01, 1, SdoValue::U16(config.base_voltage));
    push_write(&mut v, 0x2B01, 2, SdoValue::U16(config.base_frequency));
    push_write(&mut v, 0x6080, 0, SdoValue::U32(config.max_speed));
    push_write(&mut v, 0x6046, 2, SdoValue::U32(config.max_speed));
    push_write(&mut v, 0x6046, 1, SdoValue::U32(config.min_speed));
    push_write(&mut v, 0x6048, 1, SdoValue::U32(config.acceleration_numerator));
    push_write(&mut v, 0x6048, 2, SdoValue::U16(config.acceleration_denominator));
    let ghost head = v@;
    match config.stator_resistance {
        Some(r) => push_write(&mut v, 0x2C01, 2, SdoValue::U32(r)),
        None => {},
    }
    let ghost with_resistance = v@;
    match config.stator_leakage_inductance {
        Some(l) => push_write(&mut v, 0x2C01, 3, SdoValue::U32(l)),
        None => {},
    }
    let ghost with_inductance = v@;
    push_write(
        &mut v,
        AnalogInput1::index(),
        AnalogInput1::subindex(),
        SdoValue::U8(config.analog_input_1.code()),
    );
    push_write(&mut v, 0x2636, 10, SdoValue::U8(0));
    proof {
        let c = *config;
        let h = spec_mapping_writes() + seq![
            w(0x2540, 1, SdoValue::U8(c.rated_mains_voltage.spec_code())),
            w(0x2B01, 1, SdoValue::U16(c.base_voltage)),
            w(0x2B01, 2, SdoValue::U16(c.base_frequency)),
            w(0x6080, 0, SdoValue::U32(c.max_speed)),
            w(0x6046, 2, SdoValue::U32(c.max_speed)),
            w(0x6046, 1, SdoValue::U32(c.min_speed)),
            w(0x6048, 1, SdoValue::U32(c.acceleration_numerator)),
            w(0x6048, 2, SdoValue::U16(c.acceleration_denominator)),
        ];
        assert(head =~= h);
        let resistance = match c.stator_resistance {
            Some(x) => seq![w(0x2C01, 2, SdoValue::U32(x))],
            None => Seq::<SdoWrite>::empty(),
        };
        let inductance = match c.stator_leakage_inductance {
            Some(x) => seq![w(0x2C01, 3, SdoValue::U32(x))],
            None => Seq::<SdoWrite>::empty(),
        };
        assert(with_resistance =~= h + resistance);
        assert(with_inductance =~= h + resistance + inductance);
        assert(v@ =~= spec_setup_writes(c));
    }
    v
}

/// Length of the inverter's input process data.
pub const INPUT_PDO_LEN: usize = 16;

/// Length of the inverter's output process data.
pub const OUTPUT_PDO_LEN: usize = 4;

/// Number of digital inputs.
pub const DIGITAL_INPUTS: usize = 7;

/// The status word in the input process data.
pub open spec fn spec_input_status(input: Seq<u8>) -> StatusWord {
    StatusWord::spec_from_value(input[0] as int + 256 * input[1] as int)
}

/// The error code in the input process data.
pub open spec fn spec_input_error_code(input: Seq<u8>) -> u16 {
    (input[4] as int + 256 * input[5] as int) as u16
}

/// Digital input `k` in the input process data.
pub open spec fn spec_input_bit(input: Seq<u8>, k: int) -> bool {
    (input[12] >> (k as u8)) & 1u8 == 1u8
}

/// The command sent to the inverter: run when a speed is set and running is
/// asked for, stop otherwise, resetting faults on the way.
pub open spec fn spec_drive_command(state: State, setpoint: i16, run: bool) -> ControlWord {
    if setpoint != 0 && run {
        spec_transition(state, TransitionAction::Run, true)
    } else {
        spec_transition(state, TransitionAction::Stop, true)
    }
}

/// The command sent to an inverter in `state`.
pub fn drive_command(state: State, setpoint: i16, run: bool) -> (c: ControlWord)
    ensures
        c == spec_drive_command(state, setpoint, run),
{
    let mut control_word = transition(state, TransitionAction::Stop, true);
    if setpoint != 0 && run {
        control_word = transition(state, TransitionAction::Run, true);
    }
    control_word
}

/// The digital inputs of an inverter as last published.
pub struct I550Inputs {
    pub last_inputs: [Option<bool>; 7],
}

impl I550Inputs {
    /// No input published yet.
    pub fn new() -> (s: I550Inputs)
        ensures
            forall|k: int| 0 <= k < 7 ==> #[trigger] s.last_inputs[k] is None,
    {
        I550Inputs { last_inputs: [None; 7] }
    }

    /// One process-data cycle. When both images have the inverter's lengths,
    /// writes the command for the reported state and the speed setpoint to
    /// `output` and answers, in input order, the digital inputs that changed
    /// since they were last published (all of them the first time) with their
    /// new values; otherwise leaves everything as it is and answers `None`.
    pub fn process_data(&mut self, input: &[u8], output: &mut [u8], setpoint: i16, run: bool) -> (r:
        Option<Vec<(usize, bool)>>)
        requires
            input@.len() == INPUT_PDO_LEN ==> I550Error::spec_from_code(
                spec_input_error_code(input@),
            ) is Some,
        ensures
            final(output)@.len() == old(output)@.len(),
            (old(output)@.len() != OUTPUT_PDO_LEN || input@.len() != INPUT_PDO_LEN) ==> r is None
                && final(output)@ == old(output)@ && final(self).last_inputs == old(
                self,
            ).last_inputs,
            (old(output)@.len() == OUTPUT_PDO_LEN && input@.len() == INPUT_PDO_LEN) ==> {
                let cw = spec_drive_command(
                    spec_parse_state(spec_input_status(input@)),
                    setpoint,
                    run,
                );
                &&& r matches Some(changes)
                &&& final(output)@[0] as int == cw.spec_value() % 256
                &&& final(output)@[1] as int == cw.spec_value() / 256
                &&& final(output)@[2] as int == (setpoint as u16) as int % 256
                &&& final(output)@[3] as int == (setpoint as u16) as int / 256
                &&& forall|k: int|
                    0 <= k < 7 ==> final(self).last_inputs[k] == Some(spec_input_bit(input@, k))
                &&& forall|i: int|
                    0 <= i < changes@.len() ==> #[trigger] changes@[i].0 < 7 && changes@[i].1
                        == spec_input_bit(input@, changes@[i].0 as int)
                &&& forall|i: int, j: int|
                    0 <= i < j < changes@.len() ==> changes@[i].0 < changes@[j].0
                &&& forall|k: int|
                    0 <= k < 7 ==> (old(self).last_inputs[k] != Some(spec_input_bit(input@, k))
                        <==> exists|i: int| 0 <= i < changes@.len() && #[trigger] changes@[i].0 == k)
            },
    {
        if output.len() != OUTPUT_PDO_LEN {
            return None;
        }
        if input.len() != INPUT_PDO_LEN {
            return None;
        }
        let status = StatusWord::from_bytes([input[0], input[1]]);
        let state = status.parse_state();
        let cw = drive_command(state, setpoint, run).to_bytes();
        let speed = setpoint as u16;
        output[0] = cw[0];
        output[1] = cw[1];
        output[2] = (speed % 256) as u8;
        output[3] = (speed / 256) as u8;
        let ghost cwv = spec_drive_command(spec_parse_state(spec_input_status(input@)), setpoint, run);
        assert(output@[0] as int == cwv.spec_value() % 256);
        assert(output@[1] as int == cwv.spec_value() / 256);
        assert(output@[2] as int == (setpoint as u16) as int % 256);
        assert(output@[3] as int == (setpoint as u16) as int / 256);
        let ghost out_after = output@;
        let byte = input[12];
        let mut changes: Vec<(usize, bool)> = Vec::new();
        let mut idx: usize = 0;
        while idx < DIGITAL_INPUTS
            invariant
                idx <= 7,
                input@.len() == 16,
                byte == input@[12],
                forall|k: int| 0 <= k < idx ==> self.last_inputs[k] == Some(spec_input_bit(input@, k)),
                forall|k: int| idx <= k < 7 ==> self.last_inputs[k] == old(self).last_inputs[k],
                forall|i: int|
                    0 <= i < changes@.len() ==> #[trigger] changes@[i].0 < idx && changes@[i].1
                        == spec_input_bit(input@, changes@[i].0 as int),
                forall|i: int, j: int|
                    0 <= i < j < changes@.len() ==> changes@[i].0 < changes@[j].0,
                forall|k: int|
                    0 <= k < idx ==> (old(self).last_inputs[k] != Some(spec_input_bit(input@, k))
                        <==> exists|i: int| 0 <= i < changes@.len() && #[trigger] changes@[i].0 == k),
            decreases 7 - idx,
        {
            let k = idx as u8;
            let bit = (byte >> k) & 1u8 == 1u8;
            let changed = match self.last_inputs[idx] {
                None => true,
                Some(last) => last != bit,
            };
            let ghost before = changes@;
            if changed {
                changes.push((idx, bit));
            }
            assert forall|k2: int|
                0 <= k2 < idx + 1 implies (old(self).last_inputs[k2] != Some(
                spec_input_bit(input@, k2),
            ) <==> exists|i: int| 0 <= i < changes@.len() && #[trigger] changes@[i].0 == k2) by {
                if k2 < idx {
                    if exists|i: int| 0 <= i < before.len() && #[trigger] before[i].0 == k2 {
                        let i = choose|i: int| 0 <= i < before.len() && #[trigger] before[i].0 == k2;
                        assert(changes@[i].0 == k2);
                    }
                } else {
                    if changed {
                        assert(changes@[changes@.len() - 1].0 == k2);
                    }
                }
            }
            self.last_inputs[idx] = Some(bit);
            idx = idx + 1;
        }
        assert(output@ == out_after);
        let result = Some(changes);
        assert({
            let cw = spec_drive_command(spec_parse_state(spec_input_status(input@)), setpoint, run);
            &&& result matches Some(changes)
            &&& output@[0] as int == cw.spec_value() % 256
            &&& output@[1] as int == cw.spec_value() / 256
            &&& output@[2] as int == (setpoint as u16) as int % 256
            &&& output@[3] as int == (setpoint as u16) as int / 256
            &&& forall|k: int| 0 <= k < 7 ==> self.last_inputs[k] == Some(spec_input_bit(input@, k))
            &&& forall|i: int|
                0 <= i < changes@.len() ==> #[trigger] changes@[i].0 < 7 && changes@[i].1
                    == spec_input_bit(input@, changes@[i].0 as int)
            &&& forall|i: int, j: int|
                0 <= i < j < changes@.len() ==> changes@[i].0 < changes@[j].0
            &&& forall|k: int|
                0 <= k < 7 ==> (old(self).last_inputs[k] != Some(spec_input_bit(input@, k))
                    <==> exists|i: int| 0 <= i < changes@.len() && #[trigger] changes@[i].0 == k)
        });
        result
    }
}

/// The command the inverter gets, as its 16-bit value, for every state,
/// setpoint and run request. Running is asked for when the setpoint is not
/// zero and run is set. A fault is always reset (0x0080): the inverter runs
/// with automatic reset. A drive that is switched on or ready gets enable
/// operation (0x000F) when running is asked for and switch on (0x0007)
/// otherwise; an operating drive keeps operating (0x000F) or ramps down to
/// switched on (0x0007); a drive whose voltage is off gets shutdown
/// (0x0006); a drive in quick stop or fault reaction gets disable voltage
/// (0x0000).
pub proof fn lemma_drive_command_values(state: State, setpoint: i16, run: bool)
    ensures
        spec_drive_command(State::Fault, setpoint, run).spec_value() == 0x0080,
        spec_drive_command(State::SwitchOnDisabled, setpoint, run).spec_value() == 0x0006,
        spec_drive_command(State::NotReadyToSwitchOn, setpoint, run).spec_value() == 0x0006,
        spec_drive_command(State::QuickStopActive, setpoint, run).spec_value() == 0x0000,
        spec_drive_command(State::FaultReactionActive, setpoint, run).spec_value() == 0x0000,
        (state == State::ReadyToSwitchOn || state == State::SwitchedOn || state
            == State::OperationEnabled) ==> spec_drive_command(state, setpoint, run).spec_value() == (
        if setpoint != 0 && run {
            0x000Fint
        } else {
            0x0007int
        }),
{
    reveal(spec_weight);
}

} // verus!
