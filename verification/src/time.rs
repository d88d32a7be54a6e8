//! Durations kept at a fixed unit when written to and read from
//! configuration: nanoseconds, microseconds, milliseconds or seconds.
use vstd::prelude::*;
use vstd::string::*;

verus! {

/// The unit in which a duration is written.
#[derive(Clone, Copy, Debug, PartialEq, Eq, Structural)]
pub enum DurationType {
    Nano,
    Micro,
    Milli,
    Sec,
}

/// Unit tags of the duration types.
pub const NANO: u8 = 0;
pub const MICRO: u8 = 1;
pub const MILLI: u8 = 2;
pub const SEC: u8 = 3;

/// Nanoseconds in a second.
pub const NANOS_PER_SEC: u32 = 1_000_000_000;

impl DurationType {
    /// The tag of the unit (0 for nanoseconds up to 3 for seconds).
    pub open spec fn spec_tag(self) -> u8 {
        match self {
            DurationType::Nano => 0,
            DurationType::Micro => 1,
            DurationType::Milli => 2,
            DurationType::Sec => 3,
        }
    }

    pub fn tag(&self) -> (r: u8)
        ensures
            r == self.spec_tag(),
    {
        match self {
            DurationType::Nano => 0,
            DurationType::Micro => 1,
            DurationType::Milli => 2,
            DurationType::Sec => 3,
        }
    }

    /// The unit with the given tag; tags above 3 name no unit.
    pub fn from(tag: u8) -> (d: DurationType)
        requires
            tag < 4,
        ensures
            d.spec_tag() == tag,
    {
        if tag == NANO {
            DurationType::Nano
        } else if tag == MICRO {
            DurationType::Micro
        } else if tag == MILLI {
            DurationType::Milli
        } else {
            DurationType::Sec
        }
    }

    /// The unit's symbol.
    pub open spec fn spec_symbol(self) -> Seq<char> {
        match self {
            DurationType::Nano => "ns"@,
            DurationType::Micro => "µs"@,
            DurationType::Milli => "ms"@,
            DurationType::Sec => "s"@,
        }
    }

    /// The unit's symbol ("ns", "µs", "ms" or "s").
    pub fn to_string(&self) -> (s: String)
        ensures
            s@ == self.spec_symbol(),
    {
        match self {
            DurationType::Nano => String::from_str("ns"),
            DurationType::Micro => String::from_str("µs"),
            DurationType::Milli => String::from_str("ms"),
            DurationType::Sec => String::from_str("s"),
        }
    }

    /// Nanoseconds in one unit.
    pub open spec fn spec_nanos_per_unit(self) -> nat {
        match self {
            DurationType::Nano => 1,
            DurationType::Micro => 1_000,
            DurationType::Milli => 1_000_000,
            DurationType::Sec => 1_000_000_000,
        }
    }
}

/// The unit with tag `t`.
pub open spec fn spec_unit(t: u8) -> DurationType {
    if t == 0 {
        DurationType::Nano
    } else if t == 1 {
        DurationType::Micro
    } else if t == 2 {
        DurationType::Milli
    } else {
        DurationType::Sec
    }
}

/// A span of time, written in the unit tagged `TYPE`.
#[derive(Clone, Copy, Debug)]
pub struct GenericDuration<const TYPE: u8> {
    secs: u64,
    nanos: u32,
}

/// Durations written in nanoseconds.
pub type NanoDuration = GenericDuration<0>;

/// Durations written in microseconds.
pub type MicroDuration = GenericDuration<1>;

/// Durations written in milliseconds.
pub type MilliDuration = GenericDuration<2>;

/// Durations written in seconds.
pub type SecDuration = GenericDuration<3>;

impl<const TYPE: u8> GenericDuration<TYPE> {
    #[verifier::type_invariant]
    spec fn nanos_below_second(&self) -> bool {
        self.nanos < NANOS_PER_SEC
    }

    /// The whole length in nanoseconds.
    pub closed spec fn spec_total_nanos(&self) -> nat {
        self.secs as nat * 1_000_000_000 + self.nanos as nat
    }

    /// The duration of `secs` seconds and `nanos` nanoseconds.
    pub fn new(secs: u64, nanos: u32) -> (d: Self)
        requires
            nanos < NANOS_PER_SEC,
        ensures
            d.spec_total_nanos() == secs as nat * 1_000_000_000 + nanos as nat,
    {
        GenericDuration { secs, nanos }
    }

    /// Whole seconds of the duration.
    pub fn as_secs(&self) -> (r: u64)
        ensures
            r as nat == self.spec_total_nanos() / 1_000_000_000,
    {
        proof {
            use_type_invariant(self);
        }
        self.secs
    }

    /// Nanoseconds beyond the whole seconds.
    pub fn subsec_nanos(&self) -> (r: u32)
        ensures
            r as nat == self.spec_total_nanos() % 1_000_000_000,
            r < NANOS_PER_SEC,
    {
        proof {
            use_type_invariant(self);
        }
        self.nanos
    }

    /// The number written for the duration: the whole number of units of
    /// `TYPE` it lasts.
    pub fn to_units(&self) -> (r: u128)
        requires
            TYPE < 4,
        ensures
            r as nat == self.spec_total_nanos() / spec_unit(TYPE).spec_nanos_per_unit(),
    {
        proof {
            use_type_invariant(self);
        }
        let s = self.secs as u128;
        let n = self.nanos as u128;
        if TYPE == NANO {
            s * 1_000_000_000 + n
        } else if TYPE == MICRO {
            proof {
                lemma_div_split(self.secs as nat, self.nanos as nat, 1_000);
            }
            s * 1_000_000 + n / 1_000
        } else if TYPE == MILLI {
            proof {
                lemma_div_split(self.secs as nat, self.nanos as nat, 1_000_000);
            }
            s * 1_000 + n / 1_000_000
        } else {
            proof {
                lemma_div_split(self.secs as nat, self.nanos as nat, 1_000_000_000);
            }
            s
        }
    }

    /// The duration read from a written number: the number, cut to 64 bits,
    /// counts units of `TYPE`.
    pub fn from_units(value: u128) -> (d: Self)
        requires
            TYPE < 4,
        ensures
            d.spec_total_nanos() == (value as u64) as nat * spec_unit(
                TYPE,
            ).spec_nanos_per_unit(),
    {
        let v = value as u64;
        if TYPE == NANO {
            GenericDuration { secs: v / 1_000_000_000, nanos: (v % 1_000_000_000) as u32 }
        } else if TYPE == MICRO {
            proof {
                lemma_mul_split(v as nat, 1_000_000, 1_000);
            }
            GenericDuration { secs: v / 1_000_000, nanos: ((v % 1_000_000) * 1_000) as u32 }
        } else if TYPE == MILLI {
            proof {
                lemma_mul_split(v as nat, 1_000, 1_000_000);
            }
            GenericDuration { secs: v / 1_000, nanos: ((v % 1_000) * 1_000_000) as u32 }
        } else {
            GenericDuration { secs: v, nanos: 0 }
        }
    }

    /// The name of the duration type in configuration schemas, such as
    /// "GenericDuration<ms>".
    pub fn schema_name() -> (s: String)
        requires
            TYPE < 4,
        ensures
            s@ == "GenericDuration<"@ + spec_unit(TYPE).spec_symbol() + ">"@,
    {
        let unit = DurationType::from(TYPE).to_string();
        let s = String::from_str("GenericDuration<");
        let s = s.concat(unit.as_str());
        s.concat(">")
    }
}

/// Splitting a duration into seconds and nanoseconds does not change how
/// many whole units of `u` nanoseconds it holds.
proof fn lemma_div_split(secs: nat, nanos: nat, u: nat)
    requires
        u == 1_000 || u == 1_000_000 || u == 1_000_000_000,
        nanos < 1_000_000_000,
    ensures
        (secs * 1_000_000_000 + nanos) / u == secs * (1_000_000_000nat / u) + nanos / u,
{
    assert(1_000_000_000 == (1_000_000_000nat / u) * u);
    assert((secs * 1_000_000_000 + nanos) == (secs * (1_000_000_000nat / u)) * u + nanos) by (nonlinear_arith)
        requires
            1_000_000_000 == (1_000_000_000nat / u) * u,
    ;
    let k = secs * (1_000_000_000nat / u);
    vstd::arithmetic::div_mod::lemma_hoist_over_denominator(nanos as int, k as int, u);
    assert(nanos as int + k * u == secs * 1_000_000_000 + nanos);
}

/// `v` units of `f` nanoseconds, `q` units to the second, are `v / q` whole
/// seconds and `(v % q) * f` nanoseconds, fewer than a second.
proof fn lemma_mul_split(v: nat, q: nat, f: nat)
    requires
        q * f == 1_000_000_000,
        q > 0,
        f > 0,
    ensures
        (v / q) * 1_000_000_000 + (v % q) * f == v * f,
        (v % q) * f < 1_000_000_000,
{
    vstd::arithmetic::div_mod::lemma_fundamental_div_mod(v as int, q as int);
    assert(v == q * (v / q) + v % q);
    assert(v * f == (q * (v / q) + v % q) * f);
    lemma_distribute(q as int, (v / q) as int, (v % q) as int, f as int);
    assert(v % q < q) by {
        vstd::arithmetic::div_mod::lemma_mod_bound(v as int, q as int);
    }
    lemma_mul_strict((v % q) as int, q as int, f as int);
}

proof fn lemma_distribute(q: int, a: int, b: int, f: int)
    by (nonlinear_arith)
    ensures
        (q * a + b) * f == a * (q * f) + b * f,
{
}

proof fn lemma_mul_strict(b: int, q: int, f: int)
    by (nonlinear_arith)
    requires
        0 <= b < q,
        f > 0,
    ensures
        b * f < q * f,
{
}

/// Writing a duration and reading it back gives the same duration, when the
/// duration is a whole number of units and that number fits in 64 bits.
pub proof fn lemma_units_roundtrip<const TYPE: u8>(d: GenericDuration<TYPE>, value: u128)
    requires
        TYPE < 4,
        d.spec_total_nanos() % spec_unit(TYPE).spec_nanos_per_unit() == 0,
        value as nat == d.spec_total_nanos() / spec_unit(TYPE).spec_nanos_per_unit(),
        value <= u64::MAX,
    ensures
        (value as u64) as nat * spec_unit(TYPE).spec_nanos_per_unit() == d.spec_total_nanos(),
{
    let u = spec_unit(TYPE).spec_nanos_per_unit();
    let t = d.spec_total_nanos();
    assert((value as u64) as nat == value as nat);
    vstd::arithmetic::div_mod::lemma_fundamental_div_mod(t as int, u as int);
}

/// The units by tag are nanosecond, microsecond, millisecond and second:
/// each is a thousand of the one before, the first is one nanosecond and the
/// last one second; a unit's tag names it back, and each tag below 4 is the
/// tag of its unit.
pub proof fn lemma_units_scale(d: DurationType, t: u8)
    ensures
        spec_unit(0).spec_nanos_per_unit() == 1,
        spec_unit(3).spec_nanos_per_unit() == NANOS_PER_SEC as nat,
        t < 3 ==> spec_unit((t + 1) as u8).spec_nanos_per_unit() == 1000 * spec_unit(
            t,
        ).spec_nanos_per_unit(),
        spec_unit(d.spec_tag()) == d,
        t < 4 ==> spec_unit(t).spec_tag() == t,
{
}

} // verus!
