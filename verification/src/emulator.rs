use vstd::prelude::*;

use crate::command::{ParseIntErrorKind, hex_u16_value, parse_hex_u16};
use crate::decoding::{Instruction, disassemble, listing};
use crate::error::EmulationError;
use crate::gameboy::{Gameboy, GameboyState, step_defined, step_spec};

verus! {

/// The state behind the emulator's window: the console, the breakpoints,
/// the text typed in the breakpoint field, and whether the console runs.
pub struct EmulatorApp {
    console: Gameboy,
    breakpoints: Vec<u16>,
    breakpoint_field: String,
    paused: bool,
}

/// The abstract value of the window's state.
pub struct EmulatorAppState {
    pub console: GameboyState,
    pub breakpoints: Seq<u16>,
    pub breakpoint_field: Seq<char>,
    pub paused: bool,
}

impl View for EmulatorApp {
    type V = EmulatorAppState;

    closed spec fn view(&self) -> EmulatorAppState {
        EmulatorAppState {
            console: self.console@,
            breakpoints: self.breakpoints@,
            breakpoint_field: self.breakpoint_field@,
            paused: self.paused,
        }
    }
}

/// Why the breakpoint typed in the field was not placed.
#[derive(Debug, Clone, Copy, PartialEq, Eq, Structural)]
pub enum BreakpointFieldError {
    /// The field does not hold a hexadecimal address.
    InvalidNumber(ParseIntErrorKind),
    /// A breakpoint is already placed there.
    AlreadyPlaced,
}

impl EmulatorAppState {
    /// The console is well formed and no address holds two breakpoints.
    pub open spec fn wf(self) -> bool {
        &&& self.console.wf()
        &&& self.breakpoints.no_duplicates()
    }

    /// The state after "Add breakpoint": the address typed in the field is
    /// placed and the field emptied, unless the field holds no address or a
    /// breakpoint is already there.
    pub open spec fn add_field_outcome(self) -> (EmulatorAppState, Result<(), BreakpointFieldError>) {
        match hex_u16_value(self.breakpoint_field) {
            Err(k) => (self, Err(BreakpointFieldError::InvalidNumber(k))),
            Ok(v) => if self.breakpoints.contains(v as u16) {
                (self, Err(BreakpointFieldError::AlreadyPlaced))
            } else {
                (
                    EmulatorAppState {
                        breakpoints: self.breakpoints.push(v as u16),
                        breakpoint_field: Seq::empty(),
                        ..self
                    },
                    Ok(()),
                )
            },
        }
    }
}

impl EmulatorApp {
    /// The window's state for a console, paused, with no breakpoint.
    pub fn with_console(console: Gameboy) -> (app: EmulatorApp)
        requires
            console@.wf(),
        ensures
            app@.wf(),
            app@.console == console@,
            app@.breakpoints == Seq::<u16>::empty(),
            app@.breakpoint_field == Seq::<char>::empty(),
            app@.paused,
    {
        EmulatorApp { console, breakpoints: Vec::new(), paused: true, breakpoint_field: String::new() }
    }

    /// The console.
    pub fn console(&self) -> (c: &Gameboy)
        ensures
            c@ == self@.console,
    {
        &self.console
    }

    /// Whether the console waits.
    pub fn is_paused(&self) -> (b: bool)
        ensures
            b == self@.paused,
    {
        self.paused
    }

    /// The breakpoints, in the order they were placed.
    pub fn breakpoints(&self) -> (v: &Vec<u16>)
        ensures
            v@ == self@.breakpoints,
    {
        &self.breakpoints
    }

    /// The text typed in the breakpoint field.
    pub fn breakpoint_field(&self) -> (s: &String)
        ensures
            s@ == self@.breakpoint_field,
    {
        &self.breakpoint_field
    }

    /// Replaces the text of the breakpoint field.
    pub fn set_breakpoint_field(&mut self, text: String)
        ensures
            final(self)@ == (EmulatorAppState { breakpoint_field: text@, ..old(self)@ }),
    {
        self.breakpoint_field = text;
    }

    /// "Continue": lets the console run until the next breakpoint.
    pub fn resume(&mut self)
        ensures
            final(self)@ == (EmulatorAppState { paused: false, ..old(self)@ }),
    {
        self.paused = false;
    }

    /// "Next": runs the console for one step where it is defined (see
    /// `Gameboy::try_step`).
    pub fn next(&mut self) -> (r: Option<Result<u64, EmulationError>>)
        requires
            old(self)@.wf(),
        ensures
            final(self)@.wf(),
            final(self)@.breakpoints == old(self)@.breakpoints,
            final(self)@.breakpoint_field == old(self)@.breakpoint_field,
            final(self)@.paused == old(self)@.paused,
            r is None <==> !step_defined(old(self)@.console),
            r matches Some(x) ==> (final(self)@.console, x) == step_spec(old(self)@.console),
    {
        self.console.try_step()
    }

    /// One turn of the run loop: runs the console for one step where it is
    /// defined, and pauses when it stops on a breakpoint.
    pub fn run_step(&mut self) -> (r: Option<Result<u64, EmulationError>>)
        requires
            old(self)@.wf(),
        ensures
            final(self)@.wf(),
            final(self)@.breakpoints == old(self)@.breakpoints,
            final(self)@.breakpoint_field == old(self)@.breakpoint_field,
            r is None <==> !step_defined(old(self)@.console),
            r matches Some(x) ==> (final(self)@.console, x) == step_spec(old(self)@.console) && final(self)@.paused
                == (old(self)@.paused || old(self)@.breakpoints.contains(final(self)@.console.machine.cpu.pc)),
    {
        let r = self.console.try_step();
        if r.is_some() {
            let pc = self.console.cpu().read_program_counter();
            if self.has_breakpoint(pc) {
                self.paused = true;
            }
        }
        r
    }

    /// Whether a breakpoint is placed at `address`.
    fn has_breakpoint(&self, address: u16) -> (b: bool)
        ensures
            b == self@.breakpoints.contains(address),
    {
        let mut i: usize = 0;
        while i < self.breakpoints.len()
            invariant
                i <= self.breakpoints@.len(),
                forall|j: int| 0 <= j < i ==> self.breakpoints@[j] != address,
            decreases self.breakpoints@.len() - i,
        {
            if self.breakpoints[i] == address {
                return true;
            }
            i = i + 1;
        }
        false
    }

    /// "Add breakpoint": places a breakpoint at the address typed in the
    /// field, in hexadecimal, and empties the field.
    pub fn add_breakpoint_from_field(&mut self) -> (r: Result<(), BreakpointFieldError>)
        requires
            old(self)@.wf(),
        ensures
            final(self)@.wf(),
            (final(self)@, r) == old(self)@.add_field_outcome(),
    {
        let address = match parse_hex_u16(self.breakpoint_field.as_str()) {
            Ok(parsed) => parsed,
            Err(e) => {
                return Err(BreakpointFieldError::InvalidNumber(e));
            },
        };
        if self.has_breakpoint(address) {
            return Err(BreakpointFieldError::AlreadyPlaced);
        }
        let ghost before = self.breakpoints@;
        self.breakpoints.push(address);
        self.breakpoint_field = String::new();
        proof {
            let t = self.breakpoints@;
            assert forall|a: int, b: int| 0 <= a < t.len() && 0 <= b < t.len() && a != b implies t[a] != t[b] by {
                if a < before.len() && b < before.len() {
                    assert(t[a] == before[a] && t[b] == before[b]);
                } else if a < before.len() {
                    assert(t[a] == before[a]);
                } else {
                    assert(t[b] == before[b]);
                }
            }
        }
        Ok(())
    }

    /// The five instructions shown from the program counter on (see `listing`).
    pub fn assembly_view(&self) -> (v: Vec<(u16, Instruction)>)
        requires
            self@.wf(),
        ensures
            v@ == listing(self@.console.machine.mem, self@.console.machine.cpu.pc, 5),
    {
        let pc = self.console.cpu().read_program_counter();
        disassemble(&self.console, pc, 5)
    }
}

} // verus!
