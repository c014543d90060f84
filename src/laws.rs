use vstd::prelude::*;

use crate::cpu::{opcode_at, stepped, Outcome};
use crate::instruction::{decoded, lemma_decode_opcode, Instruction};
use crate::machine::{blank_screen, next_pc, Fault, Flow, MachineModel};
use crate::semantics::{execution, fits, sprite_hits, sprite_of, sub_model};
use crate::timers::Timers;

verus! {

/// `Add(x, y)` with a destination other than `VF`: when the sum of the two
/// registers exceeds 255, `VF` is 1 and the destination holds the sum modulo
/// 256; otherwise `VF` is 0 and the destination holds the exact sum.
pub proof fn lemma_add_carry(m: MachineModel, t: Timers, x: u8, y: u8, rnd: u8)
    requires
        m.wf(),
        x < 15,
        y < 16,
    ensures
        ({
            let (a, b) = (m.reg(x) as int, m.reg(y) as int);
            let (m2, t2, r) = execution(m, t, Instruction::Add(x, y), rnd);
            &&& r == Ok::<Flow, Fault>(Flow::Next)
            &&& a + b > 255 ==> m2.reg(15) == 1 && m2.reg(x) == (a + b) % 256
            &&& a + b <= 255 ==> m2.reg(15) == 0 && m2.reg(x) == a + b
        }),
{
}

/// `Sub(x, y)` with a destination other than `VF`: `VF` is 1 exactly when
/// `Vx >= Vy`, and the destination holds `Vx - Vy` modulo 256. `SubN(x, y)`
/// is the same with the operands swapped.
pub proof fn lemma_sub_borrow(m: MachineModel, t: Timers, x: u8, y: u8, rnd: u8)
    requires
        m.wf(),
        x < 15,
        y < 16,
    ensures
        ({
            let (a, b) = (m.reg(x) as int, m.reg(y) as int);
            let (m2, t2, r) = execution(m, t, Instruction::Sub(x, y), rnd);
            &&& r == Ok::<Flow, Fault>(Flow::Next)
            &&& (m2.reg(15) == 1 <==> a >= b)
            &&& m2.reg(15) == 0 || m2.reg(15) == 1
            &&& m2.reg(x) == (a - b) % 256
        }),
        ({
            let (a, b) = (m.reg(x) as int, m.reg(y) as int);
            let (m2, t2, r) = execution(m, t, Instruction::SubN(x, y), rnd);
            &&& r == Ok::<Flow, Fault>(Flow::Next)
            &&& (m2.reg(15) == 1 <==> b >= a)
            &&& m2.reg(15) == 0 || m2.reg(15) == 1
            &&& m2.reg(x) == (b - a) % 256
        }),
{
    let (a, b) = (m.reg(x) as int, m.reg(y) as int);
    lemma_wrapped_difference(a, b);
    lemma_wrapped_difference(b, a);
    let m2 = sub_model(m, x, m.reg(x), m.reg(y));
    assert(m2.reg(x) == (a - b) % 256);
    let m3 = sub_model(m, x, m.reg(y), m.reg(x));
    assert(m3.reg(x) == (b - a) % 256);
}

/// The difference of two bytes, taken modulo 256.
proof fn lemma_wrapped_difference(a: int, b: int)
    requires
        0 <= a < 256,
        0 <= b < 256,
    ensures
        (a - b + 256) % 256 == (a - b) % 256,
        0 <= (a - b) % 256 < 256,
{
    if a >= b {
        assert((a - b + 256) % 256 == a - b);
    } else {
        assert((a - b) % 256 == a - b + 256);
    }
}

/// Drawing the same sprite twice at the same place leaves the screen as it
/// was, and the second draw reports a collision exactly when the first one lit
/// a pixel. The coordinates come from registers other than `VF`, which the
/// first draw overwrites.
pub proof fn lemma_draw_twice(m: MachineModel, t: Timers, x: u8, y: u8, n: u8, rnd: u8)
    requires
        m.wf(),
        Instruction::Draw(x, y, n).wf(),
        x < 15,
        y < 15,
        fits(m, n as int),
    ensures
        ({
            let ins = Instruction::Draw(x, y, n);
            let (m1, t1, r1) = execution(m, t, ins, rnd);
            let (m2, t2, r2) = execution(m1, t1, ins, rnd);
            &&& r1 == Ok::<Flow, Fault>(Flow::Drawn)
            &&& r2 == Ok::<Flow, Fault>(Flow::Drawn)
            &&& m2.screen == m.screen
            &&& (m2.reg(15) == 1 <==> exists|p: int|
                0 <= p < 2048 && m.screen[p] == 0 && #[trigger] m1.screen[p] == 1)
            &&& m2.reg(15) == 0 || m2.reg(15) == 1
        }),
{
    let ins = Instruction::Draw(x, y, n);
    let (m1, t1, r1) = execution(m, t, ins, rnd);
    let (m2, t2, r2) = execution(m1, t1, ins, rnd);
    let vx = m.reg(x);
    let vy = m.reg(y);
    assert(m1.reg(x) == vx);
    assert(m1.reg(y) == vy);
    assert(sprite_of(m1, n) == sprite_of(m, n));
    let sprite = sprite_of(m, n);
    assert forall|p: int| 0 <= p < 2048 implies m2.screen[p] == m.screen[p] by {
        let v = m.screen[p];
        assert(v <= 1);
        assert((v ^ 1) ^ 1 == v) by (bit_vector);
    }
    assert(m2.screen =~= m.screen);
    assert forall|p: int| 0 <= p < 2048 && #[trigger] sprite_hits(sprite, vx, vy, p) implies (m1.screen[p]
        == 1 <==> m.screen[p] == 0) by {
        let v = m.screen[p];
        assert(v <= 1);
        assert(v <= 1 ==> ((v ^ 1) == 1 <==> v == 0)) by (bit_vector);
    }
    assert forall|p: int| 0 <= p < 2048 && m.screen[p] == 0 && #[trigger] m1.screen[p] == 1 implies sprite_hits(
        sprite,
        vx,
        vy,
        p,
    ) by {}
}

/// A step over two bytes that decode to no instruction only moves the program
/// counter past them: registers, memory, stack, screen, key and timers stay as
/// they were. This holds whenever the machine is not waiting for a key (while
/// it waits, a step fetches nothing).
pub proof fn lemma_undecodable_passed_over(m: MachineModel, t: Timers, rnd: u8)
    requires
        m.wf(),
        m.waiting is None,
        m.pc + 1 < 4096,
        decoded(opcode_at(m, m.pc as int)) is Err,
    ensures
        stepped(m, t, rnd) == (m.with_pc(next_pc(m.pc)), t, Ok::<Outcome, Fault>(Outcome::Undecoded)),
{
}

/// The opcode `5AB1` is no instruction: the `5` family needs a last digit of 0.
pub proof fn lemma_5ab1_undecodable()
    ensures
        decoded(0x5AB1) is Err,
{
}

/// A call followed at once by a return puts the machine back exactly as it
/// was: the same program counter and the same stack depth.
pub proof fn lemma_call_return(m: MachineModel, t: Timers, a: u16, rnd: u8)
    requires
        m.wf(),
        m.calls.len() < 16,
    ensures
        ({
            let (m1, t1, r1) = execution(m, t, Instruction::Call(a), rnd);
            let (m2, t2, r2) = execution(m1, t1, Instruction::Return, rnd);
            &&& r1 == Ok::<Flow, Fault>(Flow::Jumped)
            &&& r2 == Ok::<Flow, Fault>(Flow::Next)
            &&& m1.pc == a
            &&& m1.calls.len() == m.calls.len() + 1
            &&& m2 == m
            &&& t2 == t
        }),
{
    let (m1, t1, r1) = execution(m, t, Instruction::Call(a), rnd);
    assert(m1.calls.drop_last() =~= m.calls);
}

/// A program that starts with `00E0` (clear the screen) and `1200` (jump back
/// to the start) keeps the screen dark and comes back to `0x200` every two
/// steps, forever.
pub proof fn lemma_clear_loop(m: MachineModel, t: Timers, rnd1: u8, rnd2: u8)
    requires
        m.wf(),
        m.waiting is None,
        m.pc == 0x200,
        m.memory[0x200] == 0x00,
        m.memory[0x201] == 0xE0,
        m.memory[0x202] == 0x12,
        m.memory[0x203] == 0x00,
    ensures
        ({
            let (m1, t1, r1) = stepped(m, t, rnd1);
            let (m2, t2, r2) = stepped(m1, t1, rnd2);
            &&& r1 == Ok::<Outcome, Fault>(Outcome::Executed)
            &&& r2 == Ok::<Outcome, Fault>(Outcome::Executed)
            &&& m1.screen == blank_screen() && m1.pc == 0x202
            &&& m2 == (MachineModel { screen: blank_screen(), ..m })
            &&& t2 == t
        }),
{
    assert(opcode_at(m, 0x200) == 0x00E0);
    assert(opcode_at(m, 0x202) == 0x1200);
    lemma_decode_opcode(Instruction::Jump(0x200));
    assert(decoded(0x00E0) == Ok::<Instruction, crate::instruction::DecodeError>(Instruction::Clear));
}

} // verus!
