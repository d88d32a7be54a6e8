//! Operation modes and mode updates.
use crate::text::str_eq;
use vstd::prelude::*;
use vstd::string::*;

verus! {

/// The operation mode of the machine as published on the bus.
#[derive(Clone, Copy, Debug, PartialEq, Eq, Structural)]
pub enum OperationMode {
    Unknown,
    Stopped,
    Starting,
    Running,
    Stopping,
    Cleaning,
    Emergency,
    Fault,
    Maintenance,
}

/// The lowercase name of a mode.
pub open spec fn spec_mode_name(m: OperationMode) -> Seq<char> {
    match m {
        OperationMode::Unknown => "unknown"@,
        OperationMode::Stopped => "stopped"@,
        OperationMode::Starting => "starting"@,
        OperationMode::Running => "running"@,
        OperationMode::Stopping => "stopping"@,
        OperationMode::Cleaning => "cleaning"@,
        OperationMode::Emergency => "emergency"@,
        OperationMode::Fault => "fault"@,
        OperationMode::Maintenance => "maintenance"@,
    }
}

/// The mode whose lowercase name is `s`, if any.
pub open spec fn spec_mode_of_name(s: Seq<char>) -> Option<OperationMode> {
    if s == "unknown"@ {
        Some(OperationMode::Unknown)
    } else if s == "stopped"@ {
        Some(OperationMode::Stopped)
    } else if s == "starting"@ {
        Some(OperationMode::Starting)
    } else if s == "running"@ {
        Some(OperationMode::Running)
    } else if s == "stopping"@ {
        Some(OperationMode::Stopping)
    } else if s == "cleaning"@ {
        Some(OperationMode::Cleaning)
    } else if s == "emergency"@ {
        Some(OperationMode::Emergency)
    } else if s == "fault"@ {
        Some(OperationMode::Fault)
    } else if s == "maintenance"@ {
        Some(OperationMode::Maintenance)
    } else {
        None
    }
}

/// What `str::to_lowercase` returns for a string: its Unicode lowercase mapping.
pub uninterp spec fn lowercase_of(s: Seq<char>) -> Seq<char>;

/// Whether every character of `s` is ASCII.
pub open spec fn all_ascii(s: Seq<char>) -> bool {
    forall|i: int| 0 <= i < s.len() ==> (s[i] as u32) < 128
}

/// An ASCII character in lowercase: `A` to `Z` become `a` to `z`, every
/// other character stays.
pub open spec fn ascii_lower(c: char) -> char {
    if 'A' <= c && c <= 'Z' {
        ((c as u32) + 32) as char
    } else {
        c
    }
}

/// A text with its ASCII capitals in lowercase.
pub open spec fn ascii_lowercase(s: Seq<char>) -> Seq<char> {
    Seq::new(s.len(), |i: int| ascii_lower(s[i]))
}

/// `str::to_lowercase`.
///
/// Trusted: the result is the Unicode lowercase mapping of the argument,
/// which is given the name `lowercase_of`. Of that mapping only its ASCII
/// part is stated: on ASCII text it lowercases `A` to `Z` and keeps every
/// other character.
#[verifier::external_body]
fn str_to_lowercase(s: &str) -> (r: String)
    ensures
        r@ == lowercase_of(s@),
        all_ascii(s@) ==> r@ == ascii_lowercase(s@),
{
    s.to_lowercase()
}

impl OperationMode {
    /// The number of the mode on the bus (`Unknown` is 0, `Maintenance` 8).
    pub open spec fn spec_code(self) -> u64 {
        match self {
            OperationMode::Unknown => 0,
            OperationMode::Stopped => 1,
            OperationMode::Starting => 2,
            OperationMode::Running => 3,
            OperationMode::Stopping => 4,
            OperationMode::Cleaning => 5,
            OperationMode::Emergency => 6,
            OperationMode::Fault => 7,
            OperationMode::Maintenance => 8,
        }
    }

    pub fn code(&self) -> (r: u64)
        ensures
            r == self.spec_code(),
    {
        match self {
            OperationMode::Unknown => 0,
            OperationMode::Stopped => 1,
            OperationMode::Starting => 2,
            OperationMode::Running => 3,
            OperationMode::Stopping => 4,
            OperationMode::Cleaning => 5,
            OperationMode::Emergency => 6,
            OperationMode::Fault => 7,
            OperationMode::Maintenance => 8,
        }
    }

    /// The lowercase name of the mode ("stopped", "running", ...).
    pub fn to_string(&self) -> (s: String)
        ensures
            s@ == spec_mode_name(*self),
    {
        match self {
            OperationMode::Unknown => String::from_str("unknown"),
            OperationMode::Stopped => String::from_str("stopped"),
            OperationMode::Starting => String::from_str("starting"),
            OperationMode::Running => String::from_str("running"),
            OperationMode::Stopping => String::from_str("stopping"),
            OperationMode::Cleaning => String::from_str("cleaning"),
            OperationMode::Emergency => String::from_str("emergency"),
            OperationMode::Fault => String::from_str("fault"),
            OperationMode::Maintenance => String::from_str("maintenance"),
        }
    }

    /// The mode named by an already lowercased string; `Err(())` for any other string.
    pub fn from_lowercase(s: &str) -> (r: Result<OperationMode, ()>)
        ensures
            match spec_mode_of_name(s@) {
                Some(m) => r == Ok::<OperationMode, ()>(m),
                None => r == Err::<OperationMode, ()>(()),
            },
    {
        if str_eq(s, "unknown") {
            Ok(OperationMode::Unknown)
        } else if str_eq(s, "stopped") {
            Ok(OperationMode::Stopped)
        } else if str_eq(s, "starting") {
            Ok(OperationMode::Starting)
        } else if str_eq(s, "running") {
            Ok(OperationMode::Running)
        } else if str_eq(s, "stopping") {
            Ok(OperationMode::Stopping)
        } else if str_eq(s, "cleaning") {
            Ok(OperationMode::Cleaning)
        } else if str_eq(s, "emergency") {
            Ok(OperationMode::Emergency)
        } else if str_eq(s, "fault") {
            Ok(OperationMode::Fault)
        } else if str_eq(s, "maintenance") {
            Ok(OperationMode::Maintenance)
        } else {
            Err(())
        }
    }

    /// Parses a mode name, ignoring case: the string is lowercased and then
    /// read as by `from_lowercase`.
    pub fn from_str(s: &str) -> (r: Result<OperationMode, ()>)
        ensures
            all_ascii(s@) ==> lowercase_of(s@) == ascii_lowercase(s@),
            match spec_mode_of_name(lowercase_of(s@)) {
                Some(m) => r == Ok::<OperationMode, ()>(m),
                None => r == Err::<OperationMode, ()>(()),
            },
    {
        let lower = str_to_lowercase(s);
        OperationMode::from_lowercase(lower.as_str())
    }
}

/// Each mode's name reads back as that mode, and only its name does; the
/// names are already lowercase, so lowercasing a name keeps it; no two modes
/// share a number on the bus.
pub proof fn lemma_mode_names_roundtrip(m: OperationMode, n: OperationMode, s: Seq<char>)
    ensures
        spec_mode_of_name(spec_mode_name(m)) == Some(m),
        spec_mode_of_name(s) == Some(m) ==> s == spec_mode_name(m),
        ascii_lowercase(spec_mode_name(m)) == spec_mode_name(m),
        m.spec_code() == n.spec_code() ==> m == n,
{
    reveal_strlit("unknown");
    reveal_strlit("stopped");
    reveal_strlit("starting");
    reveal_strlit("running");
    reveal_strlit("stopping");
    reveal_strlit("cleaning");
    reveal_strlit("emergency");
    reveal_strlit("fault");
    reveal_strlit("maintenance");
    assert("unknown"@[0] != "stopped"@[0] && "unknown"@[0] != "running"@[0] && "stopped"@[0]
        != "running"@[0]);
    assert("starting"@[2] != "stopping"@[2] && "cleaning"@[0] != "starting"@[0] && "cleaning"@[0]
        != "stopping"@[0]);
    let name = spec_mode_name(m);
    assert(ascii_lowercase(name) =~= name);
}

/// A change of operation mode.
#[derive(Clone, Copy, Debug, PartialEq, Eq, Structural)]
pub struct OperationsUpdate {
    pub new_mode: OperationMode,
    pub old_mode: OperationMode,
}

impl OperationsUpdate {
    /// The update from `Unknown` to `Unknown`, what a client holds before any update.
    pub fn default() -> (u: OperationsUpdate)
        ensures
            u.new_mode == OperationMode::Unknown,
            u.old_mode == OperationMode::Unknown,
    {
        OperationsUpdate { new_mode: OperationMode::Unknown, old_mode: OperationMode::Unknown }
    }
}

} // verus!
