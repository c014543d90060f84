use vstd::prelude::*;

verus! {

/// One CHIP-8 instruction. Register operands are register numbers (0 to 15),
/// `u16` operands are 12-bit addresses and the `u8` after a register in the
/// immediate forms is a byte.
#[derive(Clone, Copy, Debug, PartialEq, Eq, Structural)]
pub enum Instruction {
    /// `0nnn`: a call into host machine code; ignored.
    SysAddr(u16),
    /// `00E0`: clear the screen.
    Clear,
    /// `00EE`: return from a subroutine.
    Return,
    /// `1nnn`: jump to `nnn`.
    Jump(u16),
    /// `2nnn`: call the subroutine at `nnn`.
    Call(u16),
    /// `3xkk`: skip the next instruction if `Vx == kk`.
    SkipEqImm(u8, u8),
    /// `4xkk`: skip the next instruction if `Vx != kk`.
    SkipNeImm(u8, u8),
    /// `5xy0`: skip the next instruction if `Vx == Vy`.
    SkipEqReg(u8, u8),
    /// `6xkk`: `Vx = kk`.
    LoadImm(u8, u8),
    /// `7xkk`: `Vx += kk`, wrapping, flag untouched.
    AddImm(u8, u8),
    /// `8xy0`: `Vx = Vy`.
    LoadReg(u8, u8),
    /// `8xy1`: `Vx |= Vy`.
    Or(u8, u8),
    /// `8xy2`: `Vx &= Vy`.
    And(u8, u8),
    /// `8xy3`: `Vx ^= Vy`.
    Xor(u8, u8),
    /// `8xy4`: `Vx += Vy`, `VF` = carry.
    Add(u8, u8),
    /// `8xy5`: `Vx -= Vy`, `VF` = no borrow.
    Sub(u8, u8),
    /// `8xy6`: `Vx = Vy >> 1`, `VF` = the bit shifted out.
    ShiftRight(u8, u8),
    /// `8xy7`: `Vx = Vy - Vx`, `VF` = no borrow.
    SubN(u8, u8),
    /// `8xyE`: `Vx = Vy << 1`, `VF` = the bit shifted out.
    ShiftLeft(u8, u8),
    /// `9xy0`: skip the next instruction if `Vx != Vy`.
    SkipNeReg(u8, u8),
    /// `Annn`: `I = nnn`.
    LoadIndex(u16),
    /// `Bnnn`: jump to `nnn + V0`.
    JumpOffset(u16),
    /// `Cxkk`: `Vx` = a random byte AND `kk`.
    Random(u8, u8),
    /// `Dxyn`: draw the `n`-byte sprite at `I` at `(Vx, Vy)`.
    Draw(u8, u8, u8),
    /// `Ex9E`: skip the next instruction if the key `Vx` is pressed.
    SkipKey(u8),
    /// `ExA1`: skip the next instruction unless the key `Vx` is pressed.
    SkipNotKey(u8),
    /// `Fx07`: `Vx` = delay timer.
    LoadDelay(u8),
    /// `Fx0A`: wait for a key press and store its code in `Vx`.
    WaitKey(u8),
    /// `Fx15`: delay timer = `Vx`.
    SetDelay(u8),
    /// `Fx18`: sound timer = `Vx`.
    SetSound(u8),
    /// `Fx1E`: `I += Vx`.
    AddIndex(u8),
    /// `Fx29`: `I` = address of the font glyph for `Vx`.
    LoadFont(u8),
    /// `Fx33`: store the decimal digits of `Vx` at `I`, `I + 1`, `I + 2`.
    StoreBcd(u8),
    /// `Fx55`: store `V0..=Vx` at `I..=I + x`.
    StoreRegs(u8),
    /// `Fx65`: load `V0..=Vx` from `I..=I + x`.
    LoadRegs(u8),
}

/// Why an opcode does not decode.
#[derive(Clone, Copy, Debug, PartialEq, Eq, Structural)]
pub enum DecodeError {
    /// No instruction family has this bit pattern.
    Unknown(u16),
}

/// The four hex digits of an opcode, most significant first.
pub open spec fn nib(op: u16, k: int) -> u8 {
    if k == 0 {
        (op / 4096) as u8
    } else if k == 1 {
        ((op / 256) % 16) as u8
    } else if k == 2 {
        ((op / 16) % 16) as u8
    } else {
        (op % 16) as u8
    }
}

/// The low twelve bits of an opcode.
pub open spec fn addr_of(op: u16) -> u16 {
    op % 4096
}

/// The low byte of an opcode.
pub open spec fn byte_of(op: u16) -> u8 {
    (op % 256) as u8
}

/// The instruction set as a table: what each opcode means.
pub open spec fn decoded(op: u16) -> Result<Instruction, DecodeError> {
    let (h, x, y, n) = (nib(op, 0), nib(op, 1), nib(op, 2), nib(op, 3));
    let (a, kk) = (addr_of(op), byte_of(op));
    if op == 0x00E0 {
        Ok(Instruction::Clear)
    } else if op == 0x00EE {
        Ok(Instruction::Return)
    } else if h == 0 {
        Ok(Instruction::SysAddr(a))
    } else if h == 1 {
        Ok(Instruction::Jump(a))
    } else if h == 2 {
        Ok(Instruction::Call(a))
    } else if h == 3 {
        Ok(Instruction::SkipEqImm(x, kk))
    } else if h == 4 {
        Ok(Instruction::SkipNeImm(x, kk))
    } else if h == 5 && n == 0 {
        Ok(Instruction::SkipEqReg(x, y))
    } else if h == 6 {
        Ok(Instruction::LoadImm(x, kk))
    } else if h == 7 {
        Ok(Instruction::AddImm(x, kk))
    } else if h == 8 && n == 0 {
        Ok(Instruction::LoadReg(x, y))
    } else if h == 8 && n == 1 {
        Ok(Instruction::Or(x, y))
    } else if h == 8 && n == 2 {
        Ok(Instruction::And(x, y))
    } else if h == 8 && n == 3 {
        Ok(Instruction::Xor(x, y))
    } else if h == 8 && n == 4 {
        Ok(Instruction::Add(x, y))
    } else if h == 8 && n == 5 {
        Ok(Instruction::Sub(x, y))
    } else if h == 8 && n == 6 {
        Ok(Instruction::ShiftRight(x, y))
    } else if h == 8 && n == 7 {
        Ok(Instruction::SubN(x, y))
    } else if h == 8 && n == 0xE {
        Ok(Instruction::ShiftLeft(x, y))
    } else if h == 9 && n == 0 {
        Ok(Instruction::SkipNeReg(x, y))
    } else if h == 0xA {
        Ok(Instruction::LoadIndex(a))
    } else if h == 0xB {
        Ok(Instruction::JumpOffset(a))
    } else if h == 0xC {
        Ok(Instruction::Random(x, kk))
    } else if h == 0xD {
        Ok(Instruction::Draw(x, y, n))
    } else if h == 0xE && kk == 0x9E {
        Ok(Instruction::SkipKey(x))
    } else if h == 0xE && kk == 0xA1 {
        Ok(Instruction::SkipNotKey(x))
    } else if h == 0xF && kk == 0x07 {
        Ok(Instruction::LoadDelay(x))
    } else if h == 0xF && kk == 0x0A {
        Ok(Instruction::WaitKey(x))
    } else if h == 0xF && kk == 0x15 {
        Ok(Instruction::SetDelay(x))
    } else if h == 0xF && kk == 0x18 {
        Ok(Instruction::SetSound(x))
    } else if h == 0xF && kk == 0x1E {
        Ok(Instruction::AddIndex(x))
    } else if h == 0xF && kk == 0x29 {
        Ok(Instruction::LoadFont(x))
    } else if h == 0xF && kk == 0x33 {
        Ok(Instruction::StoreBcd(x))
    } else if h == 0xF && kk == 0x55 {
        Ok(Instruction::StoreRegs(x))
    } else if h == 0xF && kk == 0x65 {
        Ok(Instruction::LoadRegs(x))
    } else {
        Err(DecodeError::Unknown(op))
    }
}

/// A register number: `V0` to `VF`.
pub open spec fn reg_ok(x: u8) -> bool {
    x < 16
}

impl Instruction {
    /// Operands in range: registers below 16, addresses below 4096, sprite
    /// heights below 16. `SysAddr` never carries the two addresses that spell
    /// `00E0` and `00EE`.
    pub open spec fn wf(self) -> bool {
        match self {
            Instruction::SysAddr(a) => a < 4096 && a != 0x0E0 && a != 0x0EE,
            Instruction::Clear | Instruction::Return => true,
            Instruction::Jump(a) | Instruction::Call(a) | Instruction::LoadIndex(a)
            | Instruction::JumpOffset(a) => a < 4096,
            Instruction::SkipEqImm(x, _) | Instruction::SkipNeImm(x, _)
            | Instruction::LoadImm(x, _) | Instruction::AddImm(x, _)
            | Instruction::Random(x, _) => reg_ok(x),
            Instruction::SkipEqReg(x, y) | Instruction::LoadReg(x, y) | Instruction::Or(x, y)
            | Instruction::And(x, y) | Instruction::Xor(x, y) | Instruction::Add(x, y)
            | Instruction::Sub(x, y) | Instruction::ShiftRight(x, y) | Instruction::SubN(x, y)
            | Instruction::ShiftLeft(x, y) | Instruction::SkipNeReg(x, y) => reg_ok(x) && reg_ok(
                y,
            ),
            Instruction::Draw(x, y, n) => reg_ok(x) && reg_ok(y) && n < 16,
            Instruction::SkipKey(x) | Instruction::SkipNotKey(x) | Instruction::LoadDelay(x)
            | Instruction::WaitKey(x) | Instruction::SetDelay(x) | Instruction::SetSound(x)
            | Instruction::AddIndex(x) | Instruction::LoadFont(x) | Instruction::StoreBcd(x)
            | Instruction::StoreRegs(x) | Instruction::LoadRegs(x) => reg_ok(x),
        }
    }

    /// The opcode that encodes this instruction.
    pub open spec fn opcode(self) -> int {
        match self {
            Instruction::SysAddr(a) => a as int,
            Instruction::Clear => 0x00E0,
            Instruction::Return => 0x00EE,
            Instruction::Jump(a) => 0x1000 + a,
            Instruction::Call(a) => 0x2000 + a,
            Instruction::SkipEqImm(x, k) => 0x3000 + x * 256 + k,
            Instruction::SkipNeImm(x, k) => 0x4000 + x * 256 + k,
            Instruction::SkipEqReg(x, y) => 0x5000 + x * 256 + y * 16,
            Instruction::LoadImm(x, k) => 0x6000 + x * 256 + k,
            Instruction::AddImm(x, k) => 0x7000 + x * 256 + k,
            Instruction::LoadReg(x, y) => 0x8000 + x * 256 + y * 16,
            Instruction::Or(x, y) => 0x8001 + x * 256 + y * 16,
            Instruction::And(x, y) => 0x8002 + x * 256 + y * 16,
            Instruction::Xor(x, y) => 0x8003 + x * 256 + y * 16,
            Instruction::Add(x, y) => 0x8004 + x * 256 + y * 16,
            Instruction::Sub(x, y) => 0x8005 + x * 256 + y * 16,
            Instruction::ShiftRight(x, y) => 0x8006 + x * 256 + y * 16,
            Instruction::SubN(x, y) => 0x8007 + x * 256 + y * 16,
            Instruction::ShiftLeft(x, y) => 0x800E + x * 256 + y * 16,
            Instruction::SkipNeReg(x, y) => 0x9000 + x * 256 + y * 16,
            Instruction::LoadIndex(a) => 0xA000 + a,
            Instruction::JumpOffset(a) => 0xB000 + a,
            Instruction::Random(x, k) => 0xC000 + x * 256 + k,
            Instruction::Draw(x, y, n) => 0xD000 + x * 256 + y * 16 + n,
            Instruction::SkipKey(x) => 0xE09E + x * 256,
            Instruction::SkipNotKey(x) => 0xE0A1 + x * 256,
            Instruction::LoadDelay(x) => 0xF007 + x * 256,
            Instruction::WaitKey(x) => 0xF00A + x * 256,
            Instruction::SetDelay(x) => 0xF015 + x * 256,
            Instruction::SetSound(x) => 0xF018 + x * 256,
            Instruction::AddIndex(x) => 0xF01E + x * 256,
            Instruction::LoadFont(x) => 0xF029 + x * 256,
            Instruction::StoreBcd(x) => 0xF033 + x * 256,
            Instruction::StoreRegs(x) => 0xF055 + x * 256,
            Instruction::LoadRegs(x) => 0xF065 + x * 256,
        }
    }
}

/// Decodes one opcode: the instruction it encodes, or `Unknown` where no
/// instruction family matches.
pub fn decode(op: u16) -> (r: Result<Instruction, DecodeError>)
    ensures
        r == decoded(op),
{
    let h: u8 = (op / 4096) as u8;
    let x: u8 = ((op / 256) % 16) as u8;
    let y: u8 = ((op / 16) % 16) as u8;
    let n: u8 = (op % 16) as u8;
    let a: u16 = op % 4096;
    let kk: u8 = (op % 256) as u8;
    if op == 0x00E0 {
        Ok(Instruction::Clear)
    } else if op == 0x00EE {
        Ok(Instruction::Return)
    } else {
        match h {
            0x0 => Ok(Instruction::SysAddr(a)),
            0x1 => Ok(Instruction::Jump(a)),
            0x2 => Ok(Instruction::Call(a)),
            0x3 => Ok(Instruction::SkipEqImm(x, kk)),
            0x4 => Ok(Instruction::SkipNeImm(x, kk)),
            0x5 if n == 0 => Ok(Instruction::SkipEqReg(x, y)),
            0x6 => Ok(Instruction::LoadImm(x, kk)),
            0x7 => Ok(Instruction::AddImm(x, kk)),
            0x8 => match n {
                0x0 => Ok(Instruction::LoadReg(x, y)),
                0x1 => Ok(Instruction::Or(x, y)),
                0x2 => Ok(Instruction::And(x, y)),
                0x3 => Ok(Instruction::Xor(x, y)),
                0x4 => Ok(Instruction::Add(x, y)),
                0x5 => Ok(Instruction::Sub(x, y)),
                0x6 => Ok(Instruction::ShiftRight(x, y)),
                0x7 => Ok(Instruction::SubN(x, y)),
                0xE => Ok(Instruction::ShiftLeft(x, y)),
                _ => Err(DecodeError::Unknown(op)),
            },
            0x9 if n == 0 => Ok(Instruction::SkipNeReg(x, y)),
            0xA => Ok(Instruction::LoadIndex(a)),
            0xB => Ok(Instruction::JumpOffset(a)),
            0xC => Ok(Instruction::Random(x, kk)),
            0xD => Ok(Instruction::Draw(x, y, n)),
            0xE => match kk {
                0x9E => Ok(Instruction::SkipKey(x)),
                0xA1 => Ok(Instruction::SkipNotKey(x)),
                _ => Err(DecodeError::Unknown(op)),
            },
            0xF => match kk {
                0x07 => Ok(Instruction::LoadDelay(x)),
                0x0A => Ok(Instruction::WaitKey(x)),
                0x15 => Ok(Instruction::SetDelay(x)),
                0x18 => Ok(Instruction::SetSound(x)),
                0x1E => Ok(Instruction::AddIndex(x)),
                0x29 => Ok(Instruction::LoadFont(x)),
                0x33 => Ok(Instruction::StoreBcd(x)),
                0x55 => Ok(Instruction::StoreRegs(x)),
                0x65 => Ok(Instruction::LoadRegs(x)),
                _ => Err(DecodeError::Unknown(op)),
            },
            _ => Err(DecodeError::Unknown(op)),
        }
    }
}

/// How an opcode splits into its four hex digits, its address and its byte.
proof fn lemma_digits(op: u16)
    ensures
        op == nib(op, 0) * 4096 + nib(op, 1) * 256 + nib(op, 2) * 16 + nib(op, 3),
        nib(op, 0) < 16 && nib(op, 1) < 16 && nib(op, 2) < 16 && nib(op, 3) < 16,
        addr_of(op) == nib(op, 1) * 256 + nib(op, 2) * 16 + nib(op, 3),
        byte_of(op) == nib(op, 2) * 16 + nib(op, 3),
{
}

/// The digits of a number written with four given hex digits.
proof fn lemma_from_digits(h: int, x: int, y: int, n: int)
    requires
        0 <= h < 16 && 0 <= x < 16 && 0 <= y < 16 && 0 <= n < 16,
    ensures
        ({
            let op = (h * 4096 + x * 256 + y * 16 + n) as u16;
            &&& op as int == h * 4096 + x * 256 + y * 16 + n
            &&& nib(op, 0) == h && nib(op, 1) == x && nib(op, 2) == y && nib(op, 3) == n
        }),
{
    let op = (h * 4096 + x * 256 + y * 16 + n) as u16;
    lemma_digits(op);
}

/// The digits of an opcode made of one hex digit and a 12-bit address.
proof fn lemma_from_addr(h: int, a: int)
    requires
        0 <= h < 16 && 0 <= a < 4096,
    ensures
        ({
            let op = (h * 4096 + a) as u16;
            &&& op as int == h * 4096 + a
            &&& nib(op, 0) == h && addr_of(op) == a
            &&& nib(op, 1) == a / 256 && byte_of(op) == a % 256
        }),
{
    lemma_from_digits(h, a / 256, (a / 16) % 16, a % 16);
}

/// The digits of an opcode made of one hex digit, a register and a byte.
proof fn lemma_from_byte(h: int, x: int, k: int)
    requires
        0 <= h < 16 && 0 <= x < 16 && 0 <= k < 256,
    ensures
        ({
            let op = (h * 4096 + x * 256 + k) as u16;
            &&& op as int == h * 4096 + x * 256 + k
            &&& nib(op, 0) == h && nib(op, 1) == x && byte_of(op) == k
            &&& nib(op, 2) == k / 16 && nib(op, 3) == k % 16
        }),
{
    lemma_from_digits(h, x, k / 16, k % 16);
    lemma_digits((h * 4096 + x * 256 + k) as u16);
}

/// Every well-formed instruction decodes from its own opcode, with the same
/// operands.
#[verifier::rlimit(40)]
pub proof fn lemma_decode_opcode(ins: Instruction)
    requires
        ins.wf(),
    ensures
        0 <= ins.opcode() < 0x10000,
        decoded(ins.opcode() as u16) == Ok::<Instruction, DecodeError>(ins),
{
    match ins {
        Instruction::SysAddr(a) => lemma_from_addr(0, a as int),
        Instruction::Clear | Instruction::Return => {},
        Instruction::Jump(a) => lemma_from_addr(1, a as int),
        Instruction::Call(a) => lemma_from_addr(2, a as int),
        Instruction::SkipEqImm(x, k) => lemma_from_byte(3, x as int, k as int),
        Instruction::SkipNeImm(x, k) => lemma_from_byte(4, x as int, k as int),
        Instruction::SkipEqReg(x, y) => lemma_from_digits(5, x as int, y as int, 0),
        Instruction::LoadImm(x, k) => lemma_from_byte(6, x as int, k as int),
        Instruction::AddImm(x, k) => lemma_from_byte(7, x as int, k as int),
        Instruction::LoadReg(x, y) => lemma_from_digits(8, x as int, y as int, 0),
        Instruction::Or(x, y) => lemma_from_digits(8, x as int, y as int, 1),
        Instruction::And(x, y) => lemma_from_digits(8, x as int, y as int, 2),
        Instruction::Xor(x, y) => lemma_from_digits(8, x as int, y as int, 3),
        Instruction::Add(x, y) => lemma_from_digits(8, x as int, y as int, 4),
        Instruction::Sub(x, y) => lemma_from_digits(8, x as int, y as int, 5),
        Instruction::ShiftRight(x, y) => lemma_from_digits(8, x as int, y as int, 6),
        Instruction::SubN(x, y) => lemma_from_digits(8, x as int, y as int, 7),
        Instruction::ShiftLeft(x, y) => lemma_from_digits(8, x as int, y as int, 0xE),
        Instruction::SkipNeReg(x, y) => lemma_from_digits(9, x as int, y as int, 0),
        Instruction::LoadIndex(a) => lemma_from_addr(0xA, a as int),
        Instruction::JumpOffset(a) => lemma_from_addr(0xB, a as int),
        Instruction::Random(x, k) => lemma_from_byte(0xC, x as int, k as int),
        Instruction::Draw(x, y, n) => lemma_from_digits(0xD, x as int, y as int, n as int),
        Instruction::SkipKey(x) => lemma_from_byte(0xE, x as int, 0x9E),
        Instruction::SkipNotKey(x) => lemma_from_byte(0xE, x as int, 0xA1),
        Instruction::LoadDelay(x) => lemma_from_byte(0xF, x as int, 0x07),
        Instruction::WaitKey(x) => lemma_from_byte(0xF, x as int, 0x0A),
        Instruction::SetDelay(x) => lemma_from_byte(0xF, x as int, 0x15),
        Instruction::SetSound(x) => lemma_from_byte(0xF, x as int, 0x18),
        Instruction::AddIndex(x) => lemma_from_byte(0xF, x as int, 0x1E),
        Instruction::LoadFont(x) => lemma_from_byte(0xF, x as int, 0x29),
        Instruction::StoreBcd(x) => lemma_from_byte(0xF, x as int, 0x33),
        Instruction::StoreRegs(x) => lemma_from_byte(0xF, x as int, 0x55),
        Instruction::LoadRegs(x) => lemma_from_byte(0xF, x as int, 0x65),
    }
}

/// Whatever decodes is well formed and is encoded by exactly the opcode it
/// came from; so an opcode that no instruction encodes is rejected.
pub proof fn lemma_decoded_encodes(op: u16)
    ensures
        decoded(op) is Ok ==> decoded(op)->Ok_0.wf() && decoded(op)->Ok_0.opcode() == op,
        (forall|ins: Instruction| ins.wf() ==> ins.opcode() != op) ==> decoded(op) is Err,
{
    lemma_digits(op);
    if decoded(op) is Ok {
        let ins = decoded(op)->Ok_0;
        assert(ins.wf() && ins.opcode() == op);
    }
}

} // verus!