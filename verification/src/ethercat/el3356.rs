//! The Beckhoff EL3356 load-cell terminal: its status and control words,
//! its filter setting, its calibration sequence and the object writes of the
//! calibration steps.
use crate::ethercat::cia402::spec_bit;
use crate::ethercat::devices::Index;
use crate::ethercat::i550::{SdoValue, SdoWrite};
use vstd::prelude::*;

verus! {

/// The status word of the terminal.
#[derive(Clone, Copy, Debug, PartialEq, Eq, Structural)]
pub struct StatusWord {
    /// Bit 1.
    pub over_range: bool,
    /// Bit 3.
    pub data_invalid: bool,
    /// Bit 6.
    pub collective_error: bool,
    /// Bit 7.
    pub calibration_in_progress: bool,
    /// Bit 8: the load has stayed within a band for a while.
    pub steady_state: bool,
    /// Bit 13.
    pub sync_error: bool,
    /// Bit 15: toggles with each new data set.
    pub tx_pdo: bool,
}

impl StatusWord {
    pub open spec fn spec_from_value(w: int) -> StatusWord {
        StatusWord {
            over_range: spec_bit(w, 1),
            data_invalid: spec_bit(w, 3),
            collective_error: spec_bit(w, 6),
            calibration_in_progress: spec_bit(w, 7),
            steady_state: spec_bit(w, 8),
            sync_error: spec_bit(w, 13),
            tx_pdo: spec_bit(w, 15),
        }
    }

    /// Reads the status word from its two bytes, least significant first.
    pub fn from_bytes(b: [u8; 2]) -> (s: StatusWord)
        ensures
            s == StatusWord::spec_from_value(b[0] as int + 256 * b[1] as int),
    {
        proof {
            vstd::arithmetic::power2::lemma2_to64();
        }
        let w: u16 = b[0] as u16 + 256 * b[1] as u16;
        StatusWord {
            over_range: (w / 2) % 2 == 1,
            data_invalid: (w / 8) % 2 == 1,
            collective_error: (w / 64) % 2 == 1,
            calibration_in_progress: (w / 128) % 2 == 1,
            steady_state: (w / 256) % 2 == 1,
            sync_error: (w / 8192) % 2 == 1,
            tx_pdo: (w / 32768) % 2 == 1,
        }
    }
}

/// The control word of the terminal.
#[derive(Clone, Copy, Debug, PartialEq, Eq, Structural)]
pub struct ControlWord {
    /// Bit 0: start self-calibration now.
    pub start_calibration: bool,
    /// Bit 1: no periodic self-calibration.
    pub disable_calibration: bool,
    /// Bit 2: stop passing measurements to the filter.
    pub input_freeze: bool,
    /// Bit 3: fast conversion (mode 1) instead of precise (mode 0).
    pub sample_mode: bool,
    /// Bit 4: tare.
    pub tare: bool,
}

impl ControlWord {
    /// The 16-bit value of the control word.
    pub open spec fn spec_value(self) -> int {
        (if self.start_calibration { 1int } else { 0int }) + (if self.disable_calibration {
            2int
        } else {
            0int
        }) + (if self.input_freeze { 4int } else { 0int }) + (if self.sample_mode {
            8int
        } else {
            0int
        }) + (if self.tare { 16int } else { 0int })
    }

    /// The two bytes of the control word, least significant first.
    pub fn to_bytes(&self) -> (r: [u8; 2])
        ensures
            r[0] as int == self.spec_value(),
            r[1] == 0,
    {
        let mut v: u8 = 0;
        if self.start_calibration {
            v = v + 1;
        }
        if self.disable_calibration {
            v = v + 2;
        }
        if self.input_freeze {
            v = v + 4;
        }
        if self.sample_mode {
            v = v + 8;
        }
        if self.tare {
            v = v + 16;
        }
        [v, 0]
    }
}

/// The measurement filter (object 0x8000:11).
#[derive(Clone, Copy, Debug, PartialEq, Eq, Structural)]
pub enum Filter {
    FIR50,
    FIR60,
    IIR1,
    IIR2,
    IIR3,
    IIR4,
    IIR5,
    IIR6,
    IIR7,
    IIR8,
    DynamicIIR,
    PDOFilterFrequency,
}

/// Object index and subindex of the filter setting.
pub const FILTER_INDEX: u16 = 0x8000;
pub const FILTER_SUBINDEX: u8 = 0x11;

/// The filter setting is object 0x8000:11.
impl Index for Filter {
    open spec fn spec_index() -> u16 {
        FILTER_INDEX
    }

    open spec fn spec_subindex() -> u8 {
        FILTER_SUBINDEX
    }

    fn index() -> (r: u16) {
        FILTER_INDEX
    }

    fn subindex() -> (r: u8) {
        FILTER_SUBINDEX
    }
}

impl Filter {
    pub open spec fn spec_code(self) -> u16 {
        match self {
            Filter::FIR50 => 0,
            Filter::FIR60 => 1,
            Filter::IIR1 => 2,
            Filter::IIR2 => 3,
            Filter::IIR3 => 4,
            Filter::IIR4 => 5,
            Filter::IIR5 => 6,
            Filter::IIR6 => 7,
            Filter::IIR7 => 8,
            Filter::IIR8 => 9,
            Filter::DynamicIIR => 10,
            Filter::PDOFilterFrequency => 11,
        }
    }

    /// The value written to the terminal.
    pub fn code(&self) -> (r: u16)
        ensures
            r == self.spec_code(),
    {
        match self {
            Filter::FIR50 => 0,
            Filter::FIR60 => 1,
            Filter::IIR1 => 2,
            Filter::IIR2 => 3,
            Filter::IIR3 => 4,
            Filter::IIR4 => 5,
            Filter::IIR5 => 6,
            Filter::IIR6 => 7,
            Filter::IIR7 => 8,
            Filter::IIR8 => 9,
            Filter::DynamicIIR => 10,
            Filter::PDOFilterFrequency => 11,
        }
    }

    /// The default filter, FIR 50 Hz.
    pub fn default() -> (f: Filter)
        ensures
            f == Filter::FIR50,
    {
        Filter::FIR50
    }
}

/// Whether the terminal weighs, or compares against a reference load.
#[derive(Clone, Copy, Debug, PartialEq, Eq, Structural)]
pub enum Mode {
    Scale,
    Reference,
}

impl Mode {
    /// The default mode, weighing.
    pub fn default() -> (m: Mode)
        ensures
            m == Mode::Scale,
    {
        Mode::Scale
    }
}

/// The steps of a calibration.
#[derive(Clone, Copy, Debug, PartialEq, Eq, Structural)]
pub enum CalibrateStates {
    Idle,
    ZeroCalibration,
    Calibration,
}

/// The requests that move a calibration on.
#[derive(Clone, Copy, Debug, PartialEq, Eq, Structural)]
pub enum CalibrateEvents {
    SetZeroCalibration,
    SetCalibration,
    SetIdle,
}

/// The next step: `Idle` to zero calibration to calibration and back to
/// `Idle`, each on its own request; `None` for a request out of turn.
pub open spec fn spec_calibrate_next(s: CalibrateStates, e: CalibrateEvents) -> Option<
    CalibrateStates,
> {
    match (s, e) {
        (CalibrateStates::Idle, CalibrateEvents::SetZeroCalibration) => Some(
            CalibrateStates::ZeroCalibration,
        ),
        (CalibrateStates::ZeroCalibration, CalibrateEvents::SetCalibration) => Some(
            CalibrateStates::Calibration,
        ),
        (CalibrateStates::Calibration, CalibrateEvents::SetIdle) => Some(CalibrateStates::Idle),
        _ => None,
    }
}

/// The next step of a calibration (see [`spec_calibrate_next`]).
pub fn calibrate_next(s: CalibrateStates, e: CalibrateEvents) -> (r: Option<CalibrateStates>)
    ensures
        r == spec_calibrate_next(s, e),
{
    match (s, e) {
        (CalibrateStates::Idle, CalibrateEvents::SetZeroCalibration) => Some(
            CalibrateStates::ZeroCalibration,
        ),
        (CalibrateStates::ZeroCalibration, CalibrateEvents::SetCalibration) => Some(
            CalibrateStates::Calibration,
        ),
        (CalibrateStates::Calibration, CalibrateEvents::SetIdle) => Some(CalibrateStates::Idle),
        _ => None,
    }
}

/// A calibration cannot skip its zero step: the calibration step is entered
/// only from the zero step.
pub proof fn lemma_calibration_after_zero(s: CalibrateStates, e: CalibrateEvents)
    requires
        spec_calibrate_next(s, e) == Some(CalibrateStates::Calibration),
    ensures
        s == CalibrateStates::ZeroCalibration,
{
}

/// Bit pattern of the single-precision 1.0.
pub const F32_ONE_BITS: u32 = 0x3F80_0000;

/// Object and command of the calibration commands (0xFB00:01).
pub const COMMAND_INDEX: u16 = 0xFB00;

pub open spec fn w(index: u16, subindex: u8, value: SdoValue) -> SdoWrite {
    SdoWrite { index, subindex, value }
}

/// The writes of a zero calibration before the terminal is polled for its
/// end: restore the delivery state, scale factor, gain 1 and tare 0, the
/// strongest filter, the nominal load (a single-precision bit pattern), and
/// the zero-balance command 0x0101.
pub open spec fn spec_zero_calibrate_writes(nominal_load_bits: u32) -> Seq<SdoWrite> {
    seq![
        w(0x1011, 0x01, SdoValue::U32(0x64616F6C)),
        w(0x8000, 0x27, SdoValue::U32(0x3F80_0000)),
        w(0x8000, 0x21, SdoValue::U32(0x3F80_0000)),
        w(0x8000, 0x22, SdoValue::U32(0)),
        w(0x8000, 0x11, SdoValue::U16(9)),
        w(0x8000, 0x24, SdoValue::U32(nominal_load_bits)),
        w(0xFB00, 0x01, SdoValue::U16(0x0101)),
    ]
}

/// The writes of a zero calibration (see [`spec_zero_calibrate_writes`]).
pub fn zero_calibrate_writes(nominal_load_bits: u32) -> (r: Vec<SdoWrite>)
    ensures
        r@ == spec_zero_calibrate_writes(nominal_load_bits),
{
    let r = vec![
        SdoWrite { index: 0x1011, subindex: 0x01, value: SdoValue::U32(0x64616F6C) },
        SdoWrite { index: 0x8000, subindex: 0x27, value: SdoValue::U32(F32_ONE_BITS) },
        SdoWrite { index: 0x8000, subindex: 0x21, value: SdoValue::U32(F32_ONE_BITS) },
        SdoWrite { index: 0x8000, subindex: 0x22, value: SdoValue::U32(0) },
        SdoWrite { index: Filter::index(), subindex: Filter::subindex(), value: SdoValue::U16(Filter::IIR8.code()) },
        SdoWrite { index: 0x8000, subindex: 0x24, value: SdoValue::U32(nominal_load_bits) },
        SdoWrite { index: COMMAND_INDEX, subindex: 0x01, value: SdoValue::U16(0x0101) },
    ];
    assert(r@ =~= spec_zero_calibrate_writes(nominal_load_bits));
    r
}

/// The writes of a calibration before the terminal is polled: the reference
/// load (a single-precision bit pattern) and the rated-output command 0x0102.
pub open spec fn spec_calibrate_writes(calibration_load_bits: u32) -> Seq<SdoWrite> {
    seq![
        w(0x8000, 0x28, SdoValue::U32(calibration_load_bits)),
        w(0xFB00, 0x01, SdoValue::U16(0x0102)),
    ]
}

/// The writes that end a calibration once the terminal is done: reset the
/// command and set the filter.
pub open spec fn spec_calibrate_finish_writes(filter: Filter) -> Seq<SdoWrite> {
    seq![w(0xFB00, 0x01, SdoValue::U16(0)), w(0x8000, 0x11, SdoValue::U16(filter.spec_code()))]
}

/// The writes of a calibration (see [`spec_calibrate_writes`]).
pub fn calibrate_writes(calibration_load_bits: u32) -> (r: Vec<SdoWrite>)
    ensures
        r@ == spec_calibrate_writes(calibration_load_bits),
{
    let r = vec![
        SdoWrite { index: 0x8000, subindex: 0x28, value: SdoValue::U32(calibration_load_bits) },
        SdoWrite { index: COMMAND_INDEX, subindex: 0x01, value: SdoValue::U16(0x0102) },
    ];
    assert(r@ =~= spec_calibrate_writes(calibration_load_bits));
    r
}

/// The writes that end a calibration (see [`spec_calibrate_finish_writes`]).
pub fn calibrate_finish_writes(filter: Filter) -> (r: Vec<SdoWrite>)
    ensures
        r@ == spec_calibrate_finish_writes(filter),
{
    let r = vec![
        SdoWrite { index: COMMAND_INDEX, subindex: 0x01, value: SdoValue::U16(0) },
        SdoWrite { index: Filter::index(), subindex: Filter::subindex(), value: SdoValue::U16(filter.code()) },
    ];
    assert(r@ =~= spec_calibrate_finish_writes(filter));
    r
}

/// Whether a calibration command has finished: status 0 and response 0
/// (objects 0xFB00:02 and 0xFB00:03).
pub fn command_done(status: u8, response: u32) -> (r: bool)
    ensures
        r == (status == 0 && response == 0),
{
    status == 0 && response == 0
}

/// The calibration runs one cycle, `Idle`, `ZeroCalibration`, `Calibration`
/// and back to `Idle`, and each state accepts only the event that leads on.
/// Zero calibration ends by sending the command 0x0101 to the command object
/// (0xFB00:01) after writing the nominal load to 0x8000:24 and setting the
/// strongest filter; calibration writes the calibration load to 0x8000:28
/// and then sends 0x0102; finishing clears the command and restores the
/// filter given.
pub proof fn lemma_calibration_cycle(
    s: CalibrateStates,
    e: CalibrateEvents,
    nominal: u32,
    load: u32,
    filter: Filter,
)
    ensures
        spec_calibrate_next(CalibrateStates::Idle, CalibrateEvents::SetZeroCalibration) == Some(
            CalibrateStates::ZeroCalibration,
        ),
        spec_calibrate_next(CalibrateStates::ZeroCalibration, CalibrateEvents::SetCalibration)
            == Some(CalibrateStates::Calibration),
        spec_calibrate_next(CalibrateStates::Calibration, CalibrateEvents::SetIdle) == Some(
            CalibrateStates::Idle,
        ),
        spec_calibrate_next(s, e) is Some ==> (s == CalibrateStates::Idle
            && e == CalibrateEvents::SetZeroCalibration) || (s == CalibrateStates::ZeroCalibration
            && e == CalibrateEvents::SetCalibration) || (s == CalibrateStates::Calibration && e
            == CalibrateEvents::SetIdle),
        spec_zero_calibrate_writes(nominal).last() == w(0xFB00, 0x01, SdoValue::U16(0x0101)),
        spec_zero_calibrate_writes(nominal).contains(w(0x8000, 0x24, SdoValue::U32(nominal))),
        spec_zero_calibrate_writes(nominal).contains(
            w(Filter::spec_index(), Filter::spec_subindex(), SdoValue::U16(Filter::IIR8.spec_code())),
        ),
        spec_calibrate_writes(load) == seq![
            w(0x8000, 0x28, SdoValue::U32(load)),
            w(0xFB00, 0x01, SdoValue::U16(0x0102)),
        ],
        spec_calibrate_finish_writes(filter) == seq![
            w(0xFB00, 0x01, SdoValue::U16(0)),
            w(Filter::spec_index(), Filter::spec_subindex(), SdoValue::U16(filter.spec_code())),
        ],
{
    let z = spec_zero_calibrate_writes(nominal);
    assert(z[5] == w(0x8000, 0x24, SdoValue::U32(nominal)));
    assert(z[4] == w(0x8000, 0x11, SdoValue::U16(9)));
}

} // verus!
