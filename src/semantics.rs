use vstd::prelude::*;

use crate::instruction::Instruction;
use crate::keypad::hex_char;
use crate::machine::{blank_screen, next_pc, Fault, Flow, MachineModel};
use crate::timers::Timers;

verus! {

/// Bit `c` of a sprite row, counting from the left (most significant) end.
pub open spec fn bit_at(b: u8, c: int) -> u8 {
    (b >> ((7 - c) as u8)) & 1
}

/// The sprite row that lands on pixel `p` when the sprite's top is at row `vy`;
/// rows wrap around the screen.
pub open spec fn sprite_row(vy: u8, p: int) -> int {
    (p / 64 - vy) % 32
}

/// The sprite column that lands on pixel `p` when the sprite's left edge is at
/// column `vx`; columns wrap around the screen.
pub open spec fn sprite_col(vx: u8, p: int) -> int {
    (p % 64 - vx) % 64
}

/// Whether a set bit of `sprite`, drawn at `(vx, vy)`, lands on pixel `p`.
pub open spec fn sprite_hits(sprite: Seq<u8>, vx: u8, vy: u8, p: int) -> bool {
    let r = sprite_row(vy, p);
    let c = sprite_col(vx, p);
    r < sprite.len() && c < 8 && bit_at(sprite[r], c) == 1
}

/// The screen after drawing `sprite` at `(vx, vy)`: each pixel a set bit lands
/// on is flipped.
pub open spec fn drawn_screen(screen: Seq<u8>, sprite: Seq<u8>, vx: u8, vy: u8) -> Seq<u8> {
    Seq::new(
        screen.len(),
        |p: int|
            if sprite_hits(sprite, vx, vy, p) {
                screen[p] ^ 1
            } else {
                screen[p]
            },
    )
}

/// Whether drawing `sprite` at `(vx, vy)` turns off a lit pixel.
pub open spec fn collides(screen: Seq<u8>, sprite: Seq<u8>, vx: u8, vy: u8) -> bool {
    exists|p: int| 0 <= p < screen.len() && #[trigger] sprite_hits(sprite, vx, vy, p) && screen[p] == 1
}

/// The sprite that `Draw` with height `n` reads: `n` bytes from `I`.
pub open spec fn sprite_of(m: MachineModel, n: u8) -> Seq<u8> {
    m.memory.subrange(m.index as int, m.index + n)
}

/// `Draw(x, y, n)`: the sprite is drawn at `(Vx, Vy)` as they stood before the
/// instruction, then `VF` reports whether a lit pixel went dark.
pub open spec fn draw_model(m: MachineModel, x: u8, y: u8, n: u8) -> MachineModel {
    let vx = m.reg(x);
    let vy = m.reg(y);
    let sprite = sprite_of(m, n);
    let hit = collides(m.screen, sprite, vx, vy);
    MachineModel { screen: drawn_screen(m.screen, sprite, vx, vy), ..m }.with_reg(
        15,
        if hit {
            1
        } else {
            0
        },
    )
}

/// `Add(x, y)`: the flag is the carry out of the 8-bit sum; it is written
/// first, then the sum, so that `Add(F, y)` keeps the sum.
pub open spec fn add_model(m: MachineModel, x: u8, y: u8) -> MachineModel {
    let s = m.reg(x) + m.reg(y);
    m.with_reg(15, if s > 255 { 1 } else { 0 }).with_reg(x, (s % 256) as u8)
}

/// `Vx = a - b` modulo 256, `VF = 1` exactly when `a >= b` (no borrow).
pub open spec fn sub_model(m: MachineModel, x: u8, a: u8, b: u8) -> MachineModel {
    m.with_reg(15, if a >= b { 1 } else { 0 }).with_reg(x, ((a - b + 256) % 256) as u8)
}

/// `ShiftRight(x, y)`: `Vy` is copied to `Vx`; `VF` gets its lowest bit, then
/// `Vx` gets it shifted right by one.
pub open spec fn shr_model(m: MachineModel, x: u8, y: u8) -> MachineModel {
    let v = m.reg(y);
    m.with_reg(15, v % 2).with_reg(x, v / 2)
}

/// `ShiftLeft(x, y)`: `Vy` is copied to `Vx`; `VF` gets its highest bit, then
/// `Vx` gets it shifted left by one.
pub open spec fn shl_model(m: MachineModel, x: u8, y: u8) -> MachineModel {
    let v = m.reg(y);
    m.with_reg(15, v / 128).with_reg(x, ((v * 2) % 256) as u8)
}

/// Whether the pressed key is the hex digit of the low four bits of `Vx`.
pub open spec fn key_matches(m: MachineModel, x: u8) -> bool {
    m.key == Some(hex_char(m.reg(x) % 16))
}

/// The last address an instruction reaching `len` bytes from `I` touches is
/// inside memory.
pub open spec fn fits(m: MachineModel, len: int) -> bool {
    m.index + len <= 4096
}

/// `StoreBcd(x)`: hundreds, tens and units of `Vx` at `I`, `I + 1`, `I + 2`.
pub open spec fn bcd_model(m: MachineModel, x: u8) -> MachineModel {
    let v = m.reg(x);
    let i = m.index as int;
    MachineModel {
        memory: m.memory.update(i, v / 100).update(i + 1, (v / 10) % 10).update(i + 2, v % 10),
        ..m
    }
}

/// `StoreRegs(x)`: `V0..=Vx` copied to memory from `I` on.
pub open spec fn store_regs_model(m: MachineModel, x: u8) -> MachineModel {
    MachineModel {
        memory: Seq::new(
            m.memory.len(),
            |a: int|
                if m.index <= a <= m.index + x {
                    m.regs[a - m.index]
                } else {
                    m.memory[a]
                },
        ),
        ..m
    }
}

/// `LoadRegs(x)`: `V0..=Vx` filled from memory from `I` on.
pub open spec fn load_regs_model(m: MachineModel, x: u8) -> MachineModel {
    MachineModel {
        regs: Seq::new(
            m.regs.len(),
            |r: int|
                if r <= x {
                    m.memory[m.index + r]
                } else {
                    m.regs[r]
                },
        ),
        ..m
    }
}

/// What executing `ins` does: the machine and timers after it, and what it
/// asks of the loop, or the fault it raises (and then nothing changes).
/// `rnd` is the random byte that `Random` uses.
pub open spec fn execution(m: MachineModel, t: Timers, ins: Instruction, rnd: u8) -> (
    MachineModel,
    Timers,
    Result<Flow, Fault>,
) {
    let next = Ok::<Flow, Fault>(Flow::Next);
    match ins {
        Instruction::SysAddr(_) => (m, t, next),
        Instruction::Clear => (MachineModel { screen: blank_screen(), ..m }, t, next),
        Instruction::Return => if m.calls.len() == 0 {
            (m, t, Err(Fault::StackUnderflow))
        } else {
            (MachineModel { pc: m.calls.last(), calls: m.calls.drop_last(), ..m }, t, next)
        },
        Instruction::Jump(a) => (m.with_pc(a), t, Ok(Flow::Jumped)),
        Instruction::Call(a) => if m.calls.len() >= 16 {
            (m, t, Err(Fault::StackOverflow))
        } else {
            (MachineModel { pc: a, calls: m.calls.push(m.pc), ..m }, t, Ok(Flow::Jumped))
        },
        Instruction::SkipEqImm(x, k) => (m.skip_if(m.reg(x) == k), t, next),
        Instruction::SkipNeImm(x, k) => (m.skip_if(m.reg(x) != k), t, next),
        Instruction::SkipEqReg(x, y) => (m.skip_if(m.reg(x) == m.reg(y)), t, next),
        Instruction::LoadImm(x, k) => (m.with_reg(x, k), t, next),
        Instruction::AddImm(x, k) => (m.with_reg(x, ((m.reg(x) + k) % 256) as u8), t, next),
        Instruction::LoadReg(x, y) => (m.with_reg(x, m.reg(y)), t, next),
        Instruction::Or(x, y) => (m.with_reg(x, m.reg(x) | m.reg(y)), t, next),
        Instruction::And(x, y) => (m.with_reg(x, m.reg(x) & m.reg(y)), t, next),
        Instruction::Xor(x, y) => (m.with_reg(x, m.reg(x) ^ m.reg(y)), t, next),
        Instruction::Add(x, y) => (add_model(m, x, y), t, next),
        Instruction::Sub(x, y) => (sub_model(m, x, m.reg(x), m.reg(y)), t, next),
        Instruction::ShiftRight(x, y) => (shr_model(m, x, y), t, next),
        Instruction::SubN(x, y) => (sub_model(m, x, m.reg(y), m.reg(x)), t, next),
        Instruction::ShiftLeft(x, y) => (shl_model(m, x, y), t, next),
        Instruction::SkipNeReg(x, y) => (m.skip_if(m.reg(x) != m.reg(y)), t, next),
        Instruction::LoadIndex(a) => (m.with_index(a), t, next),
        Instruction::JumpOffset(a) => (m.with_pc((a + m.reg(0)) as u16), t, Ok(Flow::Jumped)),
        Instruction::Random(x, k) => (m.with_reg(x, rnd & k), t, next),
        Instruction::Draw(x, y, n) => if fits(m, n as int) {
            (draw_model(m, x, y, n), t, Ok(Flow::Drawn))
        } else {
            (m, t, Err(Fault::AddressOutOfRange))
        },
        Instruction::SkipKey(x) => if key_matches(m, x) {
            (MachineModel { key: None, ..m }.skip_if(true), t, next)
        } else {
            (m, t, next)
        },
        Instruction::SkipNotKey(x) => (m.skip_if(!key_matches(m, x)), t, next),
        Instruction::LoadDelay(x) => (m.with_reg(x, t.delay), t, next),
        Instruction::WaitKey(x) => (MachineModel { waiting: Some(x), ..m }, t, Ok(Flow::Wait)),
        Instruction::SetDelay(x) => (m, Timers { delay: m.reg(x), ..t }, next),
        Instruction::SetSound(x) => (m, Timers { sound: m.reg(x), ..t }, next),
        Instruction::AddIndex(x) => (m.with_index(((m.index + m.reg(x)) % 0x10000) as u16), t, next),
        Instruction::LoadFont(x) => (m.with_index((5 * m.reg(x)) as u16), t, next),
        Instruction::StoreBcd(x) => if fits(m, 3) {
            (bcd_model(m, x), t, next)
        } else {
            (m, t, Err(Fault::AddressOutOfRange))
        },
        Instruction::StoreRegs(x) => if fits(m, x + 1) {
            (store_regs_model(m, x), t, next)
        } else {
            (m, t, Err(Fault::AddressOutOfRange))
        },
        Instruction::LoadRegs(x) => if fits(m, x + 1) {
            (load_regs_model(m, x), t, next)
        } else {
            (m, t, Err(Fault::AddressOutOfRange))
        },
    }
}

} // verus!
