//! The console around the processor: it takes a cartridge image, places the
//! program in memory and runs the processor from its reset state.

use crate::cpu::{create_cpu, load_rom, program_capacity, Cpu};
use crate::engine::RunReport;
use crate::machine::Machine;
use crate::rom::{character_offset, create_rom, is_usable, program_offset};
use crate::trace::TraceEntry;
use vstd::prelude::*;

verus! {

/// The system clock.
pub struct Clock {
    pub timer: u32,
}

/// Why the system cannot run.
#[derive(Clone, Copy, Debug, PartialEq, Eq, Structural)]
pub enum SystemError {
    /// The cartridge image is not usable, or its program does not fit into
    /// memory.
    InvalidRom,
}

/// A processor and the record of what went wrong while setting it up.
pub struct System {
    pub cpu: Cpu,
    pub system_error: Option<SystemError>,
}

/// The program bank of a usable image.
pub open spec fn program_of(image: Seq<u8>) -> Seq<u8> {
    image.subrange(program_offset(image), character_offset(image))
}

/// Whether the image can be loaded: it is usable and its program fits
/// between the program base and the end of memory.
pub open spec fn is_loadable(image: Seq<u8>) -> bool {
    is_usable(image) && program_of(image).len() <= program_capacity()
}

impl System {
    /// Creates a system with a processor in its initial state and no error.
    pub fn new() -> (system: System)
        ensures
            system.cpu@ == Machine::initial(),
            system.system_error is None,
    {
        System { cpu: create_cpu(), system_error: None }
    }

    /// Loads the program of a cartridge image into the processor's memory.
    ///
    /// An image that cannot be loaded leaves the processor as it was and is
    /// recorded as `InvalidRom`. A recorded error stays.
    pub fn load_rom(&mut self, image: &[u8])
        ensures
            is_loadable(image@) ==> final(self).cpu@ == old(self).cpu@.load(program_of(image@))
                && final(self).system_error == old(self).system_error,
            !is_loadable(image@) ==> final(self).cpu@ == old(self).cpu@,
            !is_loadable(image@) ==> final(self).system_error == Some(SystemError::InvalidRom),
    {
        match create_rom(image) {
            Some(rom) => {
                match load_rom(&mut self.cpu, rom) {
                    Ok(_) => {},
                    Err(_) => {
                        self.system_error = Some(SystemError::InvalidRom);
                    },
                }
            },
            None => {
                self.system_error = Some(SystemError::InvalidRom);
            },
        }
    }

    /// Resets the processor and runs it until it halts, but for at most
    /// `limit` instructions.
    ///
    /// With an error on record the processor is not touched and the error is
    /// returned.
    pub fn run(&mut self, limit: u64) -> (result: Result<RunReport, SystemError>)
        ensures
            final(self).system_error == old(self).system_error,
            match old(self).system_error {
                Some(error) => result == Err::<RunReport, SystemError>(error) && final(self).cpu@
                    == old(self).cpu@,
                None => {
                    let start = old(self).cpu@.reset();
                    &&& final(self).cpu@ == start.run(limit as nat)
                    &&& result matches Ok(report)
                    &&& report.executed == start.run_executed(limit as nat)
                    &&& report.outcome == start.run_outcome(limit as nat)
                },
            },
    {
        match self.system_error {
            Some(error) => Err(error),
            None => {
                self.cpu.reset();
                Ok(self.cpu.run(limit))
            },
        }
    }

    /// Does what [`System::run`] does and records a trace entry before
    /// every step.
    pub fn run_traced(&mut self, limit: u64) -> (result: Result<
        (RunReport, Vec<TraceEntry>),
        SystemError,
    >)
        ensures
            final(self).system_error == old(self).system_error,
            match old(self).system_error {
                Some(error) => result == Err::<(RunReport, Vec<TraceEntry>), SystemError>(error)
                    && final(self).cpu@ == old(self).cpu@,
                None => {
                    let start = old(self).cpu@.reset();
                    &&& final(self).cpu@ == start.run(limit as nat)
                    &&& result matches Ok(traced)
                    &&& traced.0.executed == start.run_executed(limit as nat)
                    &&& traced.0.outcome == start.run_outcome(limit as nat)
                    &&& traced.1@ == start.run_trace(limit as nat)
                },
            },
    {
        match self.system_error {
            Some(error) => Err(error),
            None => {
                self.cpu.reset();
                Ok(self.cpu.run_traced(limit))
            },
        }
    }
}

} // verus!
