use vstd::prelude::*;

use crate::instruction::Instruction;
use crate::keypad::hex_digit;
use crate::machine::{blank_screen, pixel_at, Fault, Flow, Machine, MachineModel, MEMORY_SIZE, PIXELS};
use crate::semantics::{
    bcd_model, bit_at, collides, draw_model, drawn_screen, execution, fits, key_matches, load_regs_model, sprite_col, sprite_hits, sprite_of, sprite_row, store_regs_model,
};
use crate::timers::Timers;

verus! {

/// Whether pixel `p` is hit by one of the first `k` sprite bits, in row-major
/// order over the sprite.
spec fn hit_before(sprite: Seq<u8>, vx: u8, vy: u8, p: int, k: int) -> bool {
    sprite_hits(sprite, vx, vy, p) && sprite_row(vy, p) * 8 + sprite_col(vx, p) < k
}

/// The screen with the first `k` sprite bits drawn.
spec fn partly_drawn(screen: Seq<u8>, sprite: Seq<u8>, vx: u8, vy: u8, k: int) -> Seq<u8> {
    Seq::new(
        screen.len(),
        |p: int|
            if hit_before(sprite, vx, vy, p, k) {
                screen[p] ^ 1
            } else {
                screen[p]
            },
    )
}

/// Whether one of the first `k` sprite bits lands on a lit pixel.
spec fn partly_collides(screen: Seq<u8>, sprite: Seq<u8>, vx: u8, vy: u8, k: int) -> bool {
    exists|p: int| 0 <= p < screen.len() && #[trigger] hit_before(sprite, vx, vy, p, k) && screen[p] == 1
}

/// Sprite bit `(r, c)` lands on exactly one pixel, the one the drawing loop
/// computes; no other pixel has that bit.
proof fn lemma_draw_target(sprite: Seq<u8>, vx: u8, vy: u8, r: int, c: int)
    requires
        0 <= r < sprite.len() <= 16,
        0 <= c < 8,
    ensures
        ({
            let p = pixel_at((vy + r) % 32, (vx + c) % 64);
            &&& 0 <= p < 2048
            &&& sprite_row(vy, p) == r
            &&& sprite_col(vx, p) == c
            &&& sprite_hits(sprite, vx, vy, p) == (bit_at(sprite[r], c) == 1)
            &&& forall|q: int|
                #![trigger hit_before(sprite, vx, vy, q, r * 8 + c + 1)]
                #![trigger hit_before(sprite, vx, vy, q, r * 8 + c)]
                0 <= q < 2048 ==> (hit_before(sprite, vx, vy, q, r * 8 + c + 1) == (hit_before(
                    sprite,
                    vx,
                    vy,
                    q,
                    r * 8 + c,
                ) || (q == p && bit_at(sprite[r], c) == 1)))
        }),
{
    let row = (vy + r) % 32;
    let col = (vx + c) % 64;
    let p = pixel_at(row, col);
    assert(p / 64 == row && p % 64 == col);
    assert forall|q: int| 0 <= q < 2048 && sprite_row(vy, q) == r && sprite_col(vx, q) == c implies q
        == p by {
        let qr = q / 64;
        let qc = q % 64;
        assert(q == qr * 64 + qc);
        assert(qr == row);
        assert(qc == col);
    }
    assert forall|q: int| 0 <= q < 2048 && sprite_col(vx, q) < 8 && sprite_row(vy, q) * 8
        + sprite_col(vx, q) == r * 8 + c implies sprite_row(vy, q) == r && sprite_col(vx, q)
        == c by {
        assert(sprite_row(vy, q) >= 0 && sprite_col(vx, q) >= 0);
    }
}

impl Machine {
    /// Executes one instruction against the machine and the timers. `rnd` is
    /// the random byte that `Random` masks; no other instruction reads it.
    /// On a fault nothing changes.
    pub fn execute(&mut self, ins: Instruction, timers: &mut Timers, rnd: u8) -> (r: Result<
        Flow,
        Fault,
    >)
        requires
            old(self).inv(),
            ins.wf(),
        ensures
            final(self).inv(),
            (final(self)@, *final(timers), r) == execution(old(self)@, *old(timers), ins, rnd),
    {
        match ins {
            Instruction::SysAddr(..) | Instruction::Clear | Instruction::Return
            | Instruction::Jump(..) | Instruction::Call(..) | Instruction::SkipEqImm(..)
            | Instruction::SkipNeImm(..) | Instruction::SkipEqReg(..)
            | Instruction::SkipNeReg(..) | Instruction::JumpOffset(..)
            | Instruction::SkipKey(..) | Instruction::SkipNotKey(..) | Instruction::WaitKey(..) => {
                self.execute_flow(ins, timers, rnd)
            },
            Instruction::LoadImm(..) | Instruction::AddImm(..) | Instruction::LoadReg(..)
            | Instruction::Or(..) | Instruction::And(..) | Instruction::Xor(..)
            | Instruction::Add(..) | Instruction::Sub(..) | Instruction::ShiftRight(..)
            | Instruction::SubN(..) | Instruction::ShiftLeft(..) | Instruction::Random(..) => {
                self.execute_alu(ins, timers, rnd)
            },
            Instruction::LoadIndex(..) | Instruction::Draw(..) | Instruction::LoadDelay(..)
            | Instruction::SetDelay(..) | Instruction::SetSound(..) | Instruction::AddIndex(..)
            | Instruction::LoadFont(..) | Instruction::StoreBcd(..) | Instruction::StoreRegs(..)
            | Instruction::LoadRegs(..) => {
                self.execute_memory(ins, timers, rnd)
            },
        }
    }

    /// Control flow, skips and the key instructions.
    fn execute_flow(&mut self, ins: Instruction, timers: &mut Timers, rnd: u8) -> (r: Result<
        Flow,
        Fault,
    >)
        requires
            old(self).inv(),
            ins.wf(),
            ins is SysAddr || ins is Clear || ins is Return || ins is Jump || ins is Call || ins is SkipEqImm || ins is SkipNeImm || ins is SkipEqReg || ins is SkipNeReg || ins is JumpOffset || ins is SkipKey || ins is SkipNotKey || ins is WaitKey,
        ensures
            final(self).inv(),
            (final(self)@, *final(timers), r) == execution(old(self)@, *old(timers), ins, rnd),
    {
        match ins {
            Instruction::SysAddr(_) => Ok(Flow::Next),
            Instruction::Clear => {
                self.clear_screen();
                Ok(Flow::Next)
            },
            Instruction::Return => self.return_from_call(),
            Instruction::Jump(a) => {
                self.pc = a;
                Ok(Flow::Jumped)
            },
            Instruction::Call(a) => self.call(a),
            Instruction::SkipEqImm(x, k) => {
                let cond = self.registers[x as usize] == k;
                self.skip_if(cond);
                Ok(Flow::Next)
            },
            Instruction::SkipNeImm(x, k) => {
                let cond = self.registers[x as usize] != k;
                self.skip_if(cond);
                Ok(Flow::Next)
            },
            Instruction::SkipEqReg(x, y) => {
                let cond = self.registers[x as usize] == self.registers[y as usize];
                self.skip_if(cond);
                Ok(Flow::Next)
            },
            Instruction::SkipNeReg(x, y) => {
                let cond = self.registers[x as usize] != self.registers[y as usize];
                self.skip_if(cond);
                Ok(Flow::Next)
            },
            Instruction::JumpOffset(a) => {
                self.pc = a + self.registers[0] as u16;
                Ok(Flow::Jumped)
            },
            Instruction::SkipKey(x) => {
                if self.key_pressed(x) {
                    self.key = None;
                    self.skip_if(true);
                }
                Ok(Flow::Next)
            },
            Instruction::SkipNotKey(x) => {
                let cond = !self.key_pressed(x);
                self.skip_if(cond);
                Ok(Flow::Next)
            },
            Instruction::WaitKey(x) => {
                self.waiting = Some(x);
                Ok(Flow::Wait)
            },
            _ => Ok(Flow::Next),
        }
    }

    /// Register loads, arithmetic and logic.
    fn execute_alu(&mut self, ins: Instruction, timers: &mut Timers, rnd: u8) -> (r: Result<
        Flow,
        Fault,
    >)
        requires
            old(self).inv(),
            ins.wf(),
            ins is LoadImm || ins is AddImm || ins is LoadReg || ins is Or || ins is And || ins is Xor || ins is Add || ins is Sub || ins is ShiftRight || ins is SubN || ins is ShiftLeft || ins is Random,
        ensures
            final(self).inv(),
            (final(self)@, *final(timers), r) == execution(old(self)@, *old(timers), ins, rnd),
    {
        match ins {
            Instruction::LoadImm(x, k) => {
                self.set_register(x, k);
                Ok(Flow::Next)
            },
            Instruction::AddImm(x, k) => {
                let v = ((self.registers[x as usize] as u16 + k as u16) % 256) as u8;
                self.set_register(x, v);
                Ok(Flow::Next)
            },
            Instruction::LoadReg(x, y) => {
                let v = self.registers[y as usize];
                self.set_register(x, v);
                Ok(Flow::Next)
            },
            Instruction::Or(x, y) => {
                let v = self.registers[x as usize] | self.registers[y as usize];
                self.set_register(x, v);
                Ok(Flow::Next)
            },
            Instruction::And(x, y) => {
                let v = self.registers[x as usize] & self.registers[y as usize];
                self.set_register(x, v);
                Ok(Flow::Next)
            },
            Instruction::Xor(x, y) => {
                let v = self.registers[x as usize] ^ self.registers[y as usize];
                self.set_register(x, v);
                Ok(Flow::Next)
            },
            Instruction::Add(x, y) => {
                let sum: u16 = self.registers[x as usize] as u16 + self.registers[y as usize] as u16;
                let flag: u8 = if sum > 255 { 1 } else { 0 };
                self.set_with_flag(x, (sum % 256) as u8, flag);
                Ok(Flow::Next)
            },
            Instruction::Sub(x, y) => {
                let (a, b) = (self.registers[x as usize], self.registers[y as usize]);
                self.set_with_flag(x, ((a as u16 + 256 - b as u16) % 256) as u8, if a >= b { 1 } else { 0 });
                Ok(Flow::Next)
            },
            Instruction::ShiftRight(x, y) => {
                let v = self.registers[y as usize];
                self.set_with_flag(x, v / 2, v % 2);
                Ok(Flow::Next)
            },
            Instruction::SubN(x, y) => {
                let (a, b) = (self.registers[y as usize], self.registers[x as usize]);
                self.set_with_flag(x, ((a as u16 + 256 - b as u16) % 256) as u8, if a >= b { 1 } else { 0 });
                Ok(Flow::Next)
            },
            Instruction::ShiftLeft(x, y) => {
                let v = self.registers[y as usize];
                self.set_with_flag(x, ((v as u16 * 2) % 256) as u8, v / 128);
                Ok(Flow::Next)
            },
            Instruction::Random(x, k) => {
                self.set_register(x, rnd & k);
                Ok(Flow::Next)
            },
            _ => Ok(Flow::Next),
        }
    }

    /// The index register, memory, the screen and the timers.
    fn execute_memory(&mut self, ins: Instruction, timers: &mut Timers, rnd: u8) -> (r: Result<
        Flow,
        Fault,
    >)
        requires
            old(self).inv(),
            ins.wf(),
            ins is LoadIndex || ins is Draw || ins is LoadDelay || ins is SetDelay || ins is SetSound || ins is AddIndex || ins is LoadFont || ins is StoreBcd || ins is StoreRegs || ins is LoadRegs,
        ensures
            final(self).inv(),
            (final(self)@, *final(timers), r) == execution(old(self)@, *old(timers), ins, rnd),
    {
        match ins {
            Instruction::LoadIndex(a) => {
                self.index = a;
                Ok(Flow::Next)
            },
            Instruction::Draw(x, y, n) => self.draw(x, y, n),
            Instruction::LoadDelay(x) => {
                self.set_register(x, timers.delay);
                Ok(Flow::Next)
            },
            Instruction::SetDelay(x) => {
                timers.delay = self.registers[x as usize];
                Ok(Flow::Next)
            },
            Instruction::SetSound(x) => {
                timers.sound = self.registers[x as usize];
                Ok(Flow::Next)
            },
            Instruction::AddIndex(x) => {
                self.index = self.index.wrapping_add(self.registers[x as usize] as u16);
                Ok(Flow::Next)
            },
            Instruction::LoadFont(x) => {
                self.index = 5 * self.registers[x as usize] as u16;
                Ok(Flow::Next)
            },
            Instruction::StoreBcd(x) => self.store_bcd(x),
            Instruction::StoreRegs(x) => self.store_registers(x),
            Instruction::LoadRegs(x) => self.load_registers(x),
            _ => Ok(Flow::Next),
        }
    }

    /// Moves the program counter past the next instruction when `cond` holds.
    fn skip_if(&mut self, cond: bool)
        requires
            old(self).inv(),
        ensures
            final(self).inv(),
            final(self)@ == old(self)@.skip_if(cond),
    {
        if cond {
            self.pc = self.pc.wrapping_add(2);
        }
    }

    /// Writes register `x`.
    fn set_register(&mut self, x: u8, v: u8)
        requires
            old(self).inv(),
            x < 16,
        ensures
            final(self).inv(),
            final(self)@ == old(self)@.with_reg(x, v),
    {
        self.registers[x as usize] = v;
        assert(self@.regs =~= old(self)@.with_reg(x, v).regs);
    }

    /// Darkens every pixel.
    fn clear_screen(&mut self)
        requires
            old(self).inv(),
        ensures
            final(self).inv(),
            final(self)@ == (MachineModel { screen: blank_screen(), ..old(self)@ }),
    {
        let mut p: usize = 0;
        while p < PIXELS
            invariant
                0 <= p <= 2048,
                self.inv(),
                self@ == (MachineModel { screen: self@.screen, ..old(self)@ }),
                forall|q: int| 0 <= q < p ==> self@.screen[q] == 0,
            decreases 2048 - p,
        {
            self.screen[p] = 0;
            p += 1;
        }
        assert(self@.screen =~= blank_screen());
    }

    /// Pops the innermost return address into the program counter.
    fn return_from_call(&mut self) -> (r: Result<Flow, Fault>)
        requires
            old(self).inv(),
        ensures
            final(self).inv(),
            old(self)@.calls.len() == 0 ==> {
                &&& final(self)@ == old(self)@
                &&& r == Err::<Flow, Fault>(Fault::StackUnderflow)
            },
            old(self)@.calls.len() > 0 ==> {
                &&& final(self)@ == (MachineModel { pc: old(self)@.calls.last(), calls: old(self)@.calls.drop_last(), ..old(self)@ })
                &&& r == Ok::<Flow, Fault>(Flow::Next)
            },
    {
        if self.depth == 0 {
            return Err(Fault::StackUnderflow);
        }
        self.depth = self.depth - 1;
        self.pc = self.stack[self.depth];
        assert(self@.calls =~= old(self)@.calls.drop_last());
        Ok(Flow::Next)
    }

    /// Pushes the program counter and jumps to `a`.
    fn call(&mut self, a: u16) -> (r: Result<Flow, Fault>)
        requires
            old(self).inv(),
        ensures
            final(self).inv(),
            old(self)@.calls.len() >= 16 ==> {
                &&& final(self)@ == old(self)@
                &&& r == Err::<Flow, Fault>(Fault::StackOverflow)
            },
            old(self)@.calls.len() < 16 ==> {
                &&& final(self)@ == (MachineModel { pc: a, calls: old(self)@.calls.push(old(self)@.pc), ..old(self)@ })
                &&& r == Ok::<Flow, Fault>(Flow::Jumped)
            },
    {
        if self.depth >= 16 {
            return Err(Fault::StackOverflow);
        }
        self.stack[self.depth] = self.pc;
        self.depth = self.depth + 1;
        self.pc = a;
        assert(self@.calls =~= old(self)@.calls.push(old(self)@.pc));
        Ok(Flow::Jumped)
    }

    /// `Vx` receives `v`; `VF` receives `flag` first, so that `Vx` wins when
    /// `x` is `F`.
    fn set_with_flag(&mut self, x: u8, v: u8, flag: u8)
        requires
            old(self).inv(),
            x < 16,
        ensures
            final(self).inv(),
            final(self)@ == old(self)@.with_reg(15, flag).with_reg(x, v),
    {
        self.set_register(15, flag);
        self.set_register(x, v);
    }

    /// Whether the pressed key is the hex digit of the low four bits of `Vx`.
    fn key_pressed(&self, x: u8) -> (r: bool)
        requires
            self.inv(),
            x < 16,
        ensures
            r == key_matches(self@, x),
    {
        let digit = hex_digit(self.registers[x as usize]);
        match self.key {
            Some(c) => c == digit,
            None => false,
        }
    }

    /// Stores the decimal digits of `Vx` at `I`, `I + 1` and `I + 2`.
    fn store_bcd(&mut self, x: u8) -> (r: Result<Flow, Fault>)
        requires
            old(self).inv(),
            x < 16,
        ensures
            final(self).inv(),
            !fits(old(self)@, 3) ==> {
                &&& final(self)@ == old(self)@
                &&& r == Err::<Flow, Fault>(Fault::AddressOutOfRange)
            },
            fits(old(self)@, 3) ==> {
                &&& final(self)@ == bcd_model(old(self)@, x)
                &&& r == Ok::<Flow, Fault>(Flow::Next)
            },
    {
        let i = self.index as usize;
        if i + 3 > MEMORY_SIZE {
            return Err(Fault::AddressOutOfRange);
        }
        let v = self.registers[x as usize];
        self.memory[i] = v / 100;
        self.memory[i + 1] = (v / 10) % 10;
        self.memory[i + 2] = v % 10;
        assert(self@.memory =~= bcd_model(old(self)@, x).memory);
        Ok(Flow::Next)
    }

    /// Copies `V0..=Vx` to memory from `I` on.
    fn store_registers(&mut self, x: u8) -> (r: Result<Flow, Fault>)
        requires
            old(self).inv(),
            x < 16,
        ensures
            final(self).inv(),
            !fits(old(self)@, x + 1) ==> {
                &&& final(self)@ == old(self)@
                &&& r == Err::<Flow, Fault>(Fault::AddressOutOfRange)
            },
            fits(old(self)@, x + 1) ==> {
                &&& final(self)@ == store_regs_model(old(self)@, x)
                &&& r == Ok::<Flow, Fault>(Flow::Next)
            },
    {
        let i = self.index as usize;
        if i + x as usize + 1 > MEMORY_SIZE {
            return Err(Fault::AddressOutOfRange);
        }
        let mut r: usize = 0;
        while r <= x as usize
            invariant
                self.inv(),
                i == old(self)@.index,
                i + x + 1 <= 4096,
                x < 16,
                r <= x + 1,
                self@ == (MachineModel { memory: self@.memory, ..old(self)@ }),
                forall|a: int|
                    0 <= a < 4096 ==> #[trigger] self@.memory[a] == if i <= a < i + r {
                        old(self)@.regs[a - i]
                    } else {
                        old(self)@.memory[a]
                    },
            decreases x + 1 - r,
        {
            self.memory[i + r] = self.registers[r];
            r += 1;
        }
        assert(self@.memory =~= store_regs_model(old(self)@, x).memory);
        Ok(Flow::Next)
    }

    /// Fills `V0..=Vx` from memory from `I` on.
    fn load_registers(&mut self, x: u8) -> (r: Result<Flow, Fault>)
        requires
            old(self).inv(),
            x < 16,
        ensures
            final(self).inv(),
            !fits(old(self)@, x + 1) ==> {
                &&& final(self)@ == old(self)@
                &&& r == Err::<Flow, Fault>(Fault::AddressOutOfRange)
            },
            fits(old(self)@, x + 1) ==> {
                &&& final(self)@ == load_regs_model(old(self)@, x)
                &&& r == Ok::<Flow, Fault>(Flow::Next)
            },
    {
        let i = self.index as usize;
        if i + x as usize + 1 > MEMORY_SIZE {
            return Err(Fault::AddressOutOfRange);
        }
        let mut r: usize = 0;
        while r <= x as usize
            invariant
                self.inv(),
                i == old(self)@.index,
                i + x + 1 <= 4096,
                x < 16,
                r <= x + 1,
                self@ == (MachineModel { regs: self@.regs, ..old(self)@ }),
                forall|q: int|
                    0 <= q < 16 ==> #[trigger] self@.regs[q] == if q < r {
                        old(self)@.memory[i + q]
                    } else {
                        old(self)@.regs[q]
                    },
            decreases x + 1 - r,
        {
            self.registers[r] = self.memory[i + r];
            r += 1;
        }
        assert(self@.regs =~= load_regs_model(old(self)@, x).regs);
        Ok(Flow::Next)
    }

    /// Draws the `n`-byte sprite at `I` at `(Vx, Vy)`, wrapping at the screen
    /// edges.
    fn draw(&mut self, x: u8, y: u8, n: u8) -> (r: Result<Flow, Fault>)
        requires
            old(self).inv(),
            x < 16,
            y < 16,
            n < 16,
        ensures
            final(self).inv(),
            !fits(old(self)@, n as int) ==> {
                &&& final(self)@ == old(self)@
                &&& r == Err::<Flow, Fault>(Fault::AddressOutOfRange)
            },
            fits(old(self)@, n as int) ==> {
                &&& final(self)@ == draw_model(old(self)@, x, y, n)
                &&& r == Ok::<Flow, Fault>(Flow::Drawn)
            },
    {
        let i = self.index as usize;
        if i + n as usize > MEMORY_SIZE {
            return Err(Fault::AddressOutOfRange);
        }
        let vx = self.registers[x as usize];
        let vy = self.registers[y as usize];
        let ghost m0 = self@;
        let ghost s0 = self@.screen;
        let ghost sprite = sprite_of(old(self)@, n);
        let mut collided = false;
        let mut r: usize = 0;
        while r < n as usize
            invariant
                self.inv(),
                i == m0.index,
                i + n <= 4096,
                n < 16,
                r <= n,
                sprite == m0.memory.subrange(i as int, i + n),
                s0 == m0.screen,
                self@ == (MachineModel { screen: self@.screen, ..m0 }),
                self@.screen == partly_drawn(s0, sprite, vx, vy, r * 8),
                collided == partly_collides(s0, sprite, vx, vy, r * 8),
            decreases n - r,
        {
            let byte = self.memory[i + r];
            let mut c: usize = 0;
            while c < 8
                invariant
                    self.inv(),
                    i == m0.index,
                    i + n <= 4096,
                    n < 16,
                    r < n,
                    c <= 8,
                    byte == sprite[r as int],
                    sprite == m0.memory.subrange(i as int, i + n),
                    s0 == m0.screen,
                    self@ == (MachineModel { screen: self@.screen, ..m0 }),
                    self@.screen == partly_drawn(s0, sprite, vx, vy, r * 8 + c),
                    collided == partly_collides(s0, sprite, vx, vy, r * 8 + c),
                decreases 8 - c,
            {
                let shift: u8 = 7 - c as u8;
                let bit: u8 = (byte >> shift) & 1;
                let row = (vy as usize + r) % 32;
                let col = (vx as usize + c) % 64;
                let p = row * 64 + col;
                proof {
                    lemma_draw_target(sprite, vx, vy, r as int, c as int);
                    assert(bit == bit_at(byte, c as int));
                    assert(bit <= 1) by (bit_vector)
                        requires
                            bit == (byte >> shift) & 1,
                    ;
                }
                let was = self.screen[p];
                let now = was ^ bit;
                proof {
                    assert(was <= 1);
                    assert(was ^ 0 == was && now <= 1) by (bit_vector)
                        requires
                            was <= 1,
                            bit <= 1,
                            now == was ^ bit,
                    ;
                }
                self.screen[p] = now;
                if was == 1 && bit == 1 {
                    collided = true;
                }
                proof {
                    let k = r * 8 + c;
                    assert(self@.screen =~= partly_drawn(s0, sprite, vx, vy, k + 1));
                    if was == 1 && bit == 1 {
                        assert(hit_before(sprite, vx, vy, p as int, k + 1));
                    } else if partly_collides(s0, sprite, vx, vy, k + 1) {
                        let q = choose|q: int|
                            0 <= q < 2048 && #[trigger] hit_before(sprite, vx, vy, q, k + 1) && s0[q]
                                == 1;
                        assert(hit_before(sprite, vx, vy, q, k));
                    }
                    assert forall|q: int|
                        0 <= q < 2048 && #[trigger] hit_before(sprite, vx, vy, q, k) implies hit_before(
                        sprite,
                        vx,
                        vy,
                        q,
                        k + 1,
                    ) by {}
                }
                c += 1;
            }
            r += 1;
        }
        proof {
            assert forall|q: int| 0 <= q < 2048 implies #[trigger] hit_before(sprite, vx, vy, q, n * 8)
                == sprite_hits(sprite, vx, vy, q) by {}
            assert(self@.screen =~= drawn_screen(s0, sprite, vx, vy));
            if collides(s0, sprite, vx, vy) {
                let q = choose|q: int|
                    0 <= q < 2048 && #[trigger] sprite_hits(sprite, vx, vy, q) && s0[q] == 1;
                assert(hit_before(sprite, vx, vy, q, n * 8));
            }
            if collided {
                let q = choose|q: int|
                    0 <= q < 2048 && #[trigger] hit_before(sprite, vx, vy, q, n * 8) && s0[q] == 1;
                assert(sprite_hits(sprite, vx, vy, q));
            }
        }
        self.set_register(15, if collided { 1 } else { 0 });
        assert(self@.regs =~= draw_model(old(self)@, x, y, n).regs);
        assert(self@ == draw_model(old(self)@, x, y, n));
        Ok(Flow::Drawn)
    }
}

} // verus!
