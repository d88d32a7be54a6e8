//! Telling taps, double taps and long presses apart on a push button.
//!
//! The button is followed through three phases: waiting for a press, waiting
//! for the release (a long press if none comes within 1000 ms), and waiting
//! for a second press (a double tap if one comes within 400 ms, a tap
//! otherwise).
use vstd::prelude::*;
use vstd::string::*;

verus! {

/// A gesture on the button.
#[derive(Clone, Copy, Debug, PartialEq, Eq, Structural)]
pub enum ButtonEvent {
    Tap,
    DoubleTap,
    LongTap,
}

impl ButtonEvent {
    pub open spec fn spec_name(self) -> Seq<char> {
        match self {
            ButtonEvent::Tap => "Tap"@,
            ButtonEvent::DoubleTap => "DoubleTap"@,
            ButtonEvent::LongTap => "LongTap"@,
        }
    }

    /// The display name of the gesture.
    pub fn name(&self) -> (s: String)
        ensures
            s@ == self.spec_name(),
    {
        match self {
            ButtonEvent::Tap => String::from_str("Tap"),
            ButtonEvent::DoubleTap => String::from_str("DoubleTap"),
            ButtonEvent::LongTap => String::from_str("LongTap"),
        }
    }
}

/// How long a press must last to be a long press.
pub const LONG_PRESS_MS: u64 = 1000;

/// How soon a second press must follow a tap to make a double tap.
pub const DOUBLE_PRESS_MS: u64 = 400;

/// What the detector waits for.
#[derive(Clone, Copy, Debug, PartialEq, Eq, Structural)]
pub enum ButtonPhase {
    /// A press (the value `true`).
    Press,
    /// Any new value (the release), before the long-press time runs out.
    Release,
    /// Any new value (a second press), before the double-tap time runs out.
    Second,
}

/// What happened on the button input.
#[derive(Clone, Copy, Debug, PartialEq, Eq, Structural)]
pub enum ButtonInput {
    /// The input took this value.
    Value(bool),
    /// The armed time ran out.
    Timeout,
}

/// The result of one step of the detector.
#[derive(Clone, Copy, Debug, PartialEq, Eq, Structural)]
pub struct ButtonStep {
    /// The phase to wait in next.
    pub phase: ButtonPhase,
    /// The gesture recognized, if any.
    pub event: Option<ButtonEvent>,
    /// The time to arm, in milliseconds, if any.
    pub timeout_ms: Option<u64>,
}

pub open spec fn spec_step(phase: ButtonPhase, input: ButtonInput) -> ButtonStep {
    match phase {
        ButtonPhase::Press => match input {
            ButtonInput::Value(true) => ButtonStep {
                phase: ButtonPhase::Release,
                event: None,
                timeout_ms: Some(1000),
            },
            _ => ButtonStep { phase: ButtonPhase::Press, event: None, timeout_ms: None },
        },
        ButtonPhase::Release => match input {
            ButtonInput::Value(_) => ButtonStep {
                phase: ButtonPhase::Second,
                event: None,
                timeout_ms: Some(400),
            },
            ButtonInput::Timeout => ButtonStep {
                phase: ButtonPhase::Press,
                event: Some(ButtonEvent::LongTap),
                timeout_ms: None,
            },
        },
        ButtonPhase::Second => match input {
            ButtonInput::Value(_) => ButtonStep {
                phase: ButtonPhase::Press,
                event: Some(ButtonEvent::DoubleTap),
                timeout_ms: None,
            },
            ButtonInput::Timeout => ButtonStep {
                phase: ButtonPhase::Press,
                event: Some(ButtonEvent::Tap),
                timeout_ms: None,
            },
        },
    }
}

/// One step of the detector: in `phase`, `input` happened.
pub fn step(phase: ButtonPhase, input: ButtonInput) -> (r: ButtonStep)
    ensures
        r == spec_step(phase, input),
{
    match phase {
        ButtonPhase::Press => match input {
            ButtonInput::Value(true) => ButtonStep {
                phase: ButtonPhase::Release,
                event: None,
                timeout_ms: Some(LONG_PRESS_MS),
            },
            _ => ButtonStep { phase: ButtonPhase::Press, event: None, timeout_ms: None },
        },
        ButtonPhase::Release => match input {
            ButtonInput::Value(_) => ButtonStep {
                phase: ButtonPhase::Second,
                event: None,
                timeout_ms: Some(DOUBLE_PRESS_MS),
            },
            ButtonInput::Timeout => ButtonStep {
                phase: ButtonPhase::Press,
                event: Some(ButtonEvent::LongTap),
                timeout_ms: None,
            },
        },
        ButtonPhase::Second => match input {
            ButtonInput::Value(_) => ButtonStep {
                phase: ButtonPhase::Press,
                event: Some(ButtonEvent::DoubleTap),
                timeout_ms: None,
            },
            ButtonInput::Timeout => ButtonStep {
                phase: ButtonPhase::Press,
                event: Some(ButtonEvent::Tap),
                timeout_ms: None,
            },
        },
    }
}

/// A gesture ends the sequence: after one the detector waits for a new
/// press; and a gesture is recognized only while a press or a release is
/// being followed.
pub proof fn lemma_gesture_restarts(phase: ButtonPhase, input: ButtonInput)
    ensures
        spec_step(phase, input).event is Some ==> spec_step(phase, input).phase
            == ButtonPhase::Press && phase != ButtonPhase::Press,
        spec_step(phase, input).event == Some(ButtonEvent::LongTap) <==> (phase
            == ButtonPhase::Release && input == ButtonInput::Timeout),
{
}

/// The gestures as sequences of inputs from the waiting phase: a press that
/// is not released before the long-press time (1000 ms, armed by the press)
/// is a long tap; a press and release with no second press within the
/// double-tap time (400 ms, armed by the release) is a tap; a press, release
/// and second press is a double tap. Each gesture is reported once, at its
/// last input, and the detector then waits for a new press; while it waits,
/// a release or a timeout changes nothing.
pub proof fn lemma_gesture_sequences(release: bool, second: bool)
    ensures
        ({
            let pressed = spec_step(ButtonPhase::Press, ButtonInput::Value(true));
            let released = spec_step(pressed.phase, ButtonInput::Value(release));
            &&& (pressed.event is None) && pressed.timeout_ms == Some(LONG_PRESS_MS)
            &&& spec_step(pressed.phase, ButtonInput::Timeout) == (ButtonStep {
                phase: ButtonPhase::Press,
                event: Some(ButtonEvent::LongTap),
                timeout_ms: None,
            })
            &&& (released.event is None) && released.timeout_ms == Some(DOUBLE_PRESS_MS)
            &&& spec_step(released.phase, ButtonInput::Timeout) == (ButtonStep {
                phase: ButtonPhase::Press,
                event: Some(ButtonEvent::Tap),
                timeout_ms: None,
            })
            &&& spec_step(released.phase, ButtonInput::Value(second)) == (ButtonStep {
                phase: ButtonPhase::Press,
                event: Some(ButtonEvent::DoubleTap),
                timeout_ms: None,
            })
        }),
        spec_step(ButtonPhase::Press, ButtonInput::Value(false)) == (ButtonStep {
            phase: ButtonPhase::Press,
            event: None,
            timeout_ms: None,
        }),
        spec_step(ButtonPhase::Press, ButtonInput::Timeout) == (ButtonStep {
            phase: ButtonPhase::Press,
            event: None,
            timeout_ms: None,
        }),
{
}

} // verus!
