use vstd::prelude::*;

use crate::entropy::random_byte;
use crate::instruction::{decode, decoded, Instruction};
use crate::keypad::{key_map, keypad_code, QUIT_KEY};
use crate::machine::{next_pc, Fault, Flow, Machine, MachineModel, MEMORY_SIZE, WIDTH};
use crate::semantics::execution;
use crate::timers::Timers;

verus! {

/// What one step of the machine did.
#[derive(Clone, Copy, Debug, PartialEq, Eq, Structural)]
pub enum Outcome {
    /// An instruction ran.
    Executed,
    /// A `Draw` ran: the screen should be shown again.
    Redraw,
    /// The machine waits for a key; nothing ran.
    Waiting,
    /// The two bytes at the program counter are no instruction: they were
    /// passed over.
    Undecoded,
}

/// The opcode stored big-endian at `pc`.
pub open spec fn opcode_at(m: MachineModel, pc: int) -> u16 {
    (m.memory[pc] * 256 + m.memory[pc + 1]) as u16
}

/// One step: unless the machine waits for a key, fetch the opcode at the
/// program counter, decode it, execute it and move past it (unless it jumped).
/// Bytes that do not decode are passed over with no other change; a fault
/// changes nothing.
pub open spec fn stepped(m: MachineModel, t: Timers, rnd: u8) -> (
    MachineModel,
    Timers,
    Result<Outcome, Fault>,
) {
    if m.waiting is Some {
        (m, t, Ok(Outcome::Waiting))
    } else if m.pc + 1 >= 4096 {
        (m, t, Err(Fault::AddressOutOfRange))
    } else {
        match decoded(opcode_at(m, m.pc as int)) {
            Err(_) => (m.with_pc(next_pc(m.pc)), t, Ok(Outcome::Undecoded)),
            Ok(ins) => {
                let (m2, t2, r) = execution(m, t, ins, rnd);
                match r {
                    Err(f) => (m, t, Err(f)),
                    Ok(Flow::Jumped) => (m2, t2, Ok(Outcome::Executed)),
                    Ok(Flow::Next) => (m2.with_pc(next_pc(m2.pc)), t2, Ok(Outcome::Executed)),
                    Ok(Flow::Drawn) => (m2.with_pc(next_pc(m2.pc)), t2, Ok(Outcome::Redraw)),
                    Ok(Flow::Wait) => (m2.with_pc(next_pc(m2.pc)), t2, Ok(Outcome::Waiting)),
                }
            },
        }
    }
}

/// A host key press: the quit key asks to stop and changes nothing; while the
/// machine waits, a keypad key goes to the waiting register and ends the wait
/// (other keys are ignored); otherwise the key becomes the pressed key.
pub open spec fn key_event(m: MachineModel, c: char) -> (MachineModel, bool) {
    if c == QUIT_KEY {
        (m, true)
    } else {
        match m.waiting {
            Some(x) => match key_map(c) {
                Some(k) => (MachineModel { waiting: None, ..m.with_reg(x, k) }, false),
                None => (m, false),
            },
            None => (MachineModel { key: Some(c), ..m }, false),
        }
    }
}

/// How a pixel is shown: `#` when lit, a space when dark.
pub open spec fn pixel_char(v: u8) -> char {
    if v == 1 {
        '#'
    } else {
        ' '
    }
}

impl Machine {
    /// The opcode at the program counter.
    pub fn fetch(&self) -> (r: Result<u16, Fault>)
        requires
            self.inv(),
        ensures
            self@.pc + 1 < 4096 ==> r == Ok::<u16, Fault>(opcode_at(self@, self@.pc as int)),
            self@.pc + 1 >= 4096 ==> r == Err::<u16, Fault>(Fault::AddressOutOfRange),
    {
        let pc = self.pc as usize;
        if pc + 1 >= MEMORY_SIZE {
            return Err(Fault::AddressOutOfRange);
        }
        Ok(self.memory[pc] as u16 * 256 + self.memory[pc + 1] as u16)
    }

    /// One step of the machine, with `rnd` as the random byte should the
    /// instruction be `Random`.
    pub fn step_with(&mut self, timers: &mut Timers, rnd: u8) -> (r: Result<Outcome, Fault>)
        requires
            old(self).inv(),
        ensures
            final(self).inv(),
            (final(self)@, *final(timers), r) == stepped(old(self)@, *old(timers), rnd),
    {
        if self.waiting.is_some() {
            return Ok(Outcome::Waiting);
        }
        let op = match self.fetch() {
            Ok(op) => op,
            Err(f) => return Err(f),
        };
        let ins = match decode(op) {
            Ok(ins) => ins,
            Err(_) => {
                self.pc = self.pc.wrapping_add(2);
                return Ok(Outcome::Undecoded);
            },
        };
        proof {
            crate::instruction::lemma_decoded_encodes(op);
        }
        let flow = self.execute(ins, timers, rnd)?;
        let outcome = match flow {
            Flow::Jumped => return Ok(Outcome::Executed),
            Flow::Next => Outcome::Executed,
            Flow::Drawn => Outcome::Redraw,
            Flow::Wait => Outcome::Waiting,
        };
        self.pc = self.pc.wrapping_add(2);
        Ok(outcome)
    }

    /// One step of the machine; a `Random` instruction draws its byte from the
    /// thread-local generator.
    pub fn step(&mut self, timers: &mut Timers) -> (r: Result<Outcome, Fault>)
        requires
            old(self).inv(),
        ensures
            final(self).inv(),
            exists|rnd: u8| (final(self)@, *final(timers), r) == stepped(old(self)@, *old(timers), rnd),
    {
        let needs_random = match self.fetch() {
            Ok(op) => matches!(decode(op), Ok(Instruction::Random(_, _))),
            Err(_) => false,
        };
        let rnd = if needs_random {
            random_byte()
        } else {
            0
        };
        self.step_with(timers, rnd)
    }

    /// Hands a host key press to the machine; returns whether it was the quit
    /// key.
    pub fn press_key(&mut self, c: char) -> (quit: bool)
        requires
            old(self).inv(),
        ensures
            final(self).inv(),
            (final(self)@, quit) == key_event(old(self)@, c),
    {
        if c == QUIT_KEY {
            return true;
        }
        match self.waiting {
            Some(x) => {
                if let Some(k) = keypad_code(c) {
                    self.registers[x as usize] = k;
                    self.waiting = None;
                    assert(self@.regs =~= old(self)@.with_reg(x, k).regs);
                }
            },
            None => {
                self.key = Some(c);
            },
        }
        false
    }

    /// Row `row` of the screen as text, one character per pixel.
    pub fn row_text(&self, row: usize) -> (r: Vec<char>)
        requires
            self.inv(),
            row < 32,
        ensures
            r@ == Seq::new(64, |c: int| pixel_char(self@.pixel(row as int, c))),
    {
        let mut out: Vec<char> = Vec::new();
        let mut c: usize = 0;
        while c < WIDTH
            invariant
                row < 32,
                self.inv(),
                c <= 64,
                out@ =~= Seq::new(c as nat, |k: int| pixel_char(self@.pixel(row as int, k))),
            decreases 64 - c,
        {
            let v = self.screen[row * WIDTH + c];
            out.push(if v == 1 { '#' } else { ' ' });
            c += 1;
        }
        out
    }
}

} // verus!
