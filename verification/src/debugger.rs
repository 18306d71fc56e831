use vstd::prelude::*;

use crate::error::EmulationError;
use crate::gameboy::{Gameboy, step_defined, step_spec};

verus! {

/// A debugger around the console: the breakpoints placed, and whether the
/// console runs or waits for commands.
pub struct Debugger {
    breakpoints: Vec<u16>,
    paused: bool,
}

/// The abstract value of a debugger.
pub struct DebuggerState {
    pub breakpoints: Seq<u16>,
    pub paused: bool,
}

impl View for Debugger {
    type V = DebuggerState;

    closed spec fn view(&self) -> DebuggerState {
        DebuggerState { breakpoints: self.breakpoints@, paused: self.paused }
    }
}

/// Why a breakpoint could not be placed or removed.
#[derive(Debug, Clone, Copy, PartialEq, Eq, Structural)]
pub enum BreakpointError {
    /// A breakpoint is already placed at the address.
    AlreadyPlaced,
    /// No breakpoint is placed at the address.
    NotFound,
}

impl DebuggerState {
    /// No address holds two breakpoints.
    pub open spec fn wf(self) -> bool {
        self.breakpoints.no_duplicates()
    }

    /// The state after placing a breakpoint at `address`, which is refused
    /// when one is already there.
    pub open spec fn add_outcome(self, address: u16) -> (DebuggerState, Result<(), BreakpointError>) {
        if self.breakpoints.contains(address) {
            (self, Err(BreakpointError::AlreadyPlaced))
        } else {
            (DebuggerState { breakpoints: self.breakpoints.push(address), ..self }, Ok(()))
        }
    }

    /// The state after removing the breakpoint at `address`, which is refused
    /// when there is none.
    pub open spec fn remove_outcome(self, address: u16) -> (DebuggerState, Result<(), BreakpointError>) {
        if self.breakpoints.contains(address) {
            (DebuggerState { breakpoints: self.breakpoints.remove_value(address), ..self }, Ok(()))
        } else {
            (self, Err(BreakpointError::NotFound))
        }
    }

    /// The state after the console ran one step and stopped at `pc`: the
    /// debugger pauses when a breakpoint is placed there.
    pub open spec fn after_step(self, pc: u16) -> DebuggerState {
        DebuggerState { paused: self.paused || self.breakpoints.contains(pc), ..self }
    }
}

impl Debugger {
    /// A debugger with no breakpoint, paused or not.
    pub fn new(paused: bool) -> (d: Debugger)
        ensures
            d@.wf(),
            d@.breakpoints == Seq::<u16>::empty(),
            d@.paused == paused,
    {
        Debugger { breakpoints: Vec::new(), paused }
    }

    /// Whether the console waits for commands.
    pub fn is_paused(&self) -> (b: bool)
        ensures
            b == self@.paused,
    {
        self.paused
    }

    /// Stops running the console.
    pub fn pause(&mut self)
        ensures
            final(self)@ == (DebuggerState { paused: true, ..old(self)@ }),
    {
        self.paused = true;
    }

    /// Runs the console until the next breakpoint.
    pub fn resume(&mut self)
        ensures
            final(self)@ == (DebuggerState { paused: false, ..old(self)@ }),
    {
        self.paused = false;
    }

    /// The addresses of the breakpoints, in the order they were placed.
    pub fn breakpoints(&self) -> (v: &Vec<u16>)
        ensures
            v@ == self@.breakpoints,
    {
        &self.breakpoints
    }

    /// Whether a breakpoint is placed at `address`.
    pub fn has_breakpoint(&self, address: u16) -> (b: bool)
        ensures
            b == self@.breakpoints.contains(address),
    {
        let mut i: usize = 0;
        while i < self.breakpoints.len()
            invariant
                i <= self.breakpoints@.len(),
                forall|j: int| 0 <= j < i ==> self.breakpoints@[j] != address,
            decreases self.breakpoints@.len() - i,
        {
            if self.breakpoints[i] == address {
                return true;
            }
            i = i + 1;
        }
        false
    }

    /// Places a breakpoint at `address`.
    pub fn add_breakpoint(&mut self, address: u16) -> (r: Result<(), BreakpointError>)
        requires
            old(self)@.wf(),
        ensures
            final(self)@.wf(),
            (final(self)@, r) == old(self)@.add_outcome(address),
    {
        if self.has_breakpoint(address) {
            return Err(BreakpointError::AlreadyPlaced);
        }
        self.breakpoints.push(address);
        Ok(())
    }

    /// Removes the breakpoint at `address`.
    pub fn remove_breakpoint(&mut self, address: u16) -> (r: Result<(), BreakpointError>)
        requires
            old(self)@.wf(),
        ensures
            final(self)@.wf(),
            (final(self)@, r) == old(self)@.remove_outcome(address),
    {
        let ghost s = self.breakpoints@;
        let mut i: usize = 0;
        while i < self.breakpoints.len()
            invariant
                i <= self.breakpoints@.len(),
                self.breakpoints@ == s,
                self@ == old(self)@,
                old(self)@.wf(),
                forall|j: int| 0 <= j < i ==> s[j] != address,
            decreases self.breakpoints@.len() - i,
        {
            if self.breakpoints[i] == address {
                proof {
                    lemma_remove_first(s, address, i as int);
                    assert(s[i as int] == address);
                    lemma_breakpoints_stay_distinct(self@, address);
                }
                self.breakpoints.remove(i);
                return Ok(());
            }
            i = i + 1;
        }
        assert(!s.contains(address)) by {
            if s.contains(address) {
                let j = choose|j: int| 0 <= j < s.len() && s[j] == address;
                assert(s[j] != address);
            }
        }
        Err(BreakpointError::NotFound)
    }

    /// Runs the console for one step, where that step is defined, and pauses
    /// when it stops on a breakpoint; returns `None` where the step is not
    /// defined (see `Gameboy::try_step`).
    pub fn step(&mut self, console: &mut Gameboy) -> (r: Option<Result<u64, EmulationError>>)
        requires
            old(console)@.wf(),
        ensures
            final(console)@.wf(),
            r is None <==> !step_defined(old(console)@),
            r matches Some(x) ==> (final(console)@, x) == step_spec(old(console)@) && final(self)@
                == old(self)@.after_step(final(console)@.machine.cpu.pc),
    {
        let r = console.try_step();
        if r.is_some() {
            let pc = console.cpu().read_program_counter();
            if self.has_breakpoint(pc) {
                self.paused = true;
            }
        }
        r
    }
}

/// Removing the element at `i`, the first place `x` stands in `s`, removes
/// the value `x`.
proof fn lemma_remove_first(s: Seq<u16>, x: u16, i: int)
    requires
        0 <= i < s.len(),
        s[i] == x,
        forall|j: int| 0 <= j < i ==> s[j] != x,
    ensures
        s.remove_value(x) == s.remove(i),
{
    s.index_of_first_ensures(x);
    assert(s.contains(x));
    let k = s.index_of_first(x)->Some_0;
    assert(k == i) by {
        if k < i {
            assert(s[k] != x);
        } else if k > i {
            assert(s[i] != x);
        }
    }
}

/// Placing a breakpoint where there is none, then removing it, gives back
/// the breakpoints there were.
pub proof fn lemma_add_then_remove(d: DebuggerState, address: u16)
    requires
        d.wf(),
        !d.breakpoints.contains(address),
    ensures
        d.add_outcome(address).0.remove_outcome(address) == (d, Ok::<(), BreakpointError>(())),
{
    let s = d.breakpoints;
    let t = s.push(address);
    assert(t[s.len() as int] == address);
    assert(t.contains(address));
    assert forall|j: int| 0 <= j < s.len() implies t[j] != address by {
        assert(t[j] == s[j]);
    }
    lemma_remove_first(t, address, s.len() as int);
    assert(t.remove(s.len() as int) =~= s);
}

/// A breakpoint is placed at most once: placing one where there is one
/// already is refused and changes nothing, and the debugger's breakpoints
/// never hold an address twice.
pub proof fn lemma_breakpoints_stay_distinct(d: DebuggerState, address: u16)
    requires
        d.wf(),
    ensures
        d.add_outcome(address).0.wf(),
        d.add_outcome(address).0.breakpoints.contains(address),
        d.add_outcome(address).0.add_outcome(address) == (
            d.add_outcome(address).0,
            Err::<(), BreakpointError>(BreakpointError::AlreadyPlaced),
        ),
        d.remove_outcome(address).0.wf(),
        !d.remove_outcome(address).0.breakpoints.contains(address),
{
    let s = d.breakpoints;
    if !s.contains(address) {
        let t = s.push(address);
        assert(t[s.len() as int] == address);
        assert forall|i: int, j: int| 0 <= i < t.len() && 0 <= j < t.len() && i != j implies t[i] != t[j] by {
            if i < s.len() && j < s.len() {
                assert(s[i] != s[j]);
            } else if i < s.len() {
                assert(t[i] == s[i]);
            } else {
                assert(t[j] == s[j]);
            }
        }
    } else {
        s.index_of_first_ensures(address);
        let k = s.index_of_first(address)->Some_0;
        let r = s.remove(k);
        assert forall|i: int, j: int| 0 <= i < r.len() && 0 <= j < r.len() && i != j implies r[i] != r[j] by {
            let i2 = if i < k { i } else { i + 1 };
            let j2 = if j < k { j } else { j + 1 };
            assert(r[i] == s[i2] && r[j] == s[j2]);
        }
        assert forall|i: int| 0 <= i < r.len() implies r[i] != address by {
            let i2 = if i < k { i } else { i + 1 };
            assert(r[i] == s[i2]);
            assert(s[k] == address);
        }
    }
}

/// The color of a pixel of the tile atlas in the image dump, one line of
/// three decimal components; a value that is no 2-bit color shows red.
pub open spec fn dump_pixel_text(v: u8) -> Seq<char> {
    if v == 0 {
        "15 15 27\n"@
    } else if v == 1 {
        "86 90 117\n"@
    } else if v == 2 {
        "198 183 190\n"@
    } else if v == 3 {
        "250 251 246\n"@
    } else {
        "255 0 0\n"@
    }
}

/// The lines of the first `n` pixels of the dump.
pub open spec fn dump_pixels_text(img: Seq<u8>, n: nat) -> Seq<char>
    decreases n,
{
    if n == 0 {
        Seq::empty()
    } else {
        dump_pixels_text(img, (n - 1) as nat) + dump_pixel_text(img[n - 1])
    }
}

/// The dump of the tile atlas as a plain-text PPM image of 256 * 256 pixels.
pub open spec fn dump_text(img: Seq<u8>) -> Seq<char> {
    "P3\n256 256\n255\n"@ + dump_pixels_text(img, img.len())
}

/// The color line of one pixel of the dump.
fn dump_pixel(v: u8) -> (s: &'static str)
    ensures
        s@ == dump_pixel_text(v),
{
    if v == 0 {
        "15 15 27\n"
    } else if v == 1 {
        "86 90 117\n"
    } else if v == 2 {
        "198 183 190\n"
    } else if v == 3 {
        "250 251 246\n"
    } else {
        "255 0 0\n"
    }
}

/// Writes the tile atlas (one 2-bit color per pixel, see
/// `Gameboy::get_tile_atlas_2bpp`) as a plain-text PPM image.
pub fn tile_atlas_ppm(img: &Vec<u8>) -> (s: String)
    ensures
        s@ == dump_text(img@),
{
    let mut s = String::new();
    s.append("P3\n256 256\n255\n");
    let mut i: usize = 0;
    while i < img.len()
        invariant
            i <= img@.len(),
            s@ == "P3\n256 256\n255\n"@ + dump_pixels_text(img@, i as nat),
        decreases img@.len() - i,
    {
        s.append(dump_pixel(img[i]));
        i = i + 1;
        assert(s@ =~= "P3\n256 256\n255\n"@ + dump_pixels_text(img@, i as nat));
    }
    assert(s@ =~= dump_text(img@));
    s
}

} // verus!
