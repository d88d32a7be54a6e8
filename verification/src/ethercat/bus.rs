//! The decisions of the EtherCAT bus cycle: when the bus may go
//! operational, when a cycle failed, and when a device error is reported.
use crate::time::MicroDuration;
use vstd::prelude::*;
use vstd::string::*;

verus! {

/// The bus settings.
pub struct BusConfig {
    /// Network interface of the bus.
    pub interface: String,
    /// Time between cycles.
    pub cycle_time: MicroDuration,
    /// Minimum number of subdevices before the bus goes operational.
    pub subdevice_min_count: u8,
}

impl BusConfig {
    /// `eth0`, a 1 ms cycle, at least one subdevice.
    pub fn default() -> (c: BusConfig)
        ensures
            c.interface@ == "eth0"@,
            c.cycle_time.spec_total_nanos() == 1_000_000,
            c.subdevice_min_count == 1,
    {
        BusConfig {
            interface: String::from_str("eth0"),
            cycle_time: MicroDuration::new(0, 1_000_000),
            subdevice_min_count: 1,
        }
    }
}

/// Why the bus stopped.
#[derive(Clone, Copy, Debug, PartialEq, Eq, Structural)]
pub enum BusError {
    /// Fewer subdevices answered than the configuration asks for.
    NotEnoughSubdevices { expected: u8, got: usize },
    /// A cycle came back with another working counter than the one set up.
    WorkingCounterMismatch { expected: u16, got: u16 },
}

/// Checks that at least `min_count` subdevices are present.
pub fn check_subdevice_count(count: usize, min_count: u8) -> (r: Result<(), BusError>)
    ensures
        count < min_count ==> r == Err::<(), BusError>(
            BusError::NotEnoughSubdevices { expected: min_count, got: count },
        ),
        count >= min_count ==> r is Ok,
{
    if count < min_count as usize {
        Err(BusError::NotEnoughSubdevices { expected: min_count, got: count })
    } else {
        Ok(())
    }
}

/// Checks the working counter of a cycle against the one set up.
pub fn check_working_counter(expected: u16, got: u16) -> (r: Result<(), BusError>)
    ensures
        got != expected ==> r == Err::<(), BusError>(
            BusError::WorkingCounterMismatch { expected, got },
        ),
        got == expected ==> r is Ok,
{
    if got != expected {
        Err(BusError::WorkingCounterMismatch { expected, got })
    } else {
        Ok(())
    }
}

/// The error flag of a device after a cycle, and whether the error is to be
/// reported: only the first of a run of failed cycles is.
pub fn device_cycle(was_failing: bool, ok: bool) -> (r: (bool, bool))
    ensures
        r.0 == !ok,
        r.1 == (!ok && !was_failing),
{
    (!ok, !ok && !was_failing)
}

} // verus!
