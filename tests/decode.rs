use chip8::{decode, DecodeError, Instruction};

#[test]
fn decodes_every_family() {
    let cases: Vec<(u16, Instruction)> = vec![
        (0x0123, Instruction::SysAddr(0x123)),
        (0x00E0, Instruction::Clear),
        (0x00EE, Instruction::Return),
        (0x1ABC, Instruction::Jump(0xABC)),
        (0x2345, Instruction::Call(0x345)),
        (0x3A42, Instruction::SkipEqImm(0xA, 0x42)),
        (0x4B17, Instruction::SkipNeImm(0xB, 0x17)),
        (0x5120, Instruction::SkipEqReg(1, 2)),
        (0x6C0F, Instruction::LoadImm(0xC, 0x0F)),
        (0x7DFF, Instruction::AddImm(0xD, 0xFF)),
        (0x8AB0, Instruction::LoadReg(0xA, 0xB)),
        (0x8AB1, Instruction::Or(0xA, 0xB)),
        (0x8AB2, Instruction::And(0xA, 0xB)),
        (0x8AB3, Instruction::Xor(0xA, 0xB)),
        (0x8AB4, Instruction::Add(0xA, 0xB)),
        (0x8AB5, Instruction::Sub(0xA, 0xB)),
        (0x8AB6, Instruction::ShiftRight(0xA, 0xB)),
        (0x8AB7, Instruction::SubN(0xA, 0xB)),
        (0x8ABE, Instruction::ShiftLeft(0xA, 0xB)),
        (0x9340, Instruction::SkipNeReg(3, 4)),
        (0xA222, Instruction::LoadIndex(0x222)),
        (0xB300, Instruction::JumpOffset(0x300)),
        (0xC5F0, Instruction::Random(5, 0xF0)),
        (0xD123, Instruction::Draw(1, 2, 3)),
        (0xE79E, Instruction::SkipKey(7)),
        (0xE8A1, Instruction::SkipNotKey(8)),
        (0xF107, Instruction::LoadDelay(1)),
        (0xF20A, Instruction::WaitKey(2)),
        (0xF315, Instruction::SetDelay(3)),
        (0xF418, Instruction::SetSound(4)),
        (0xF51E, Instruction::AddIndex(5)),
        (0xF629, Instruction::LoadFont(6)),
        (0xF733, Instruction::StoreBcd(7)),
        (0xF855, Instruction::StoreRegs(8)),
        (0xF965, Instruction::LoadRegs(9)),
    ];
    assert_eq!(cases.len(), 35);
    for (op, ins) in cases {
        assert_eq!(decode(op), Ok(ins), "opcode {:04X}", op);
    }
}

#[test]
fn decodes_add_and_draw_examples() {
    assert_eq!(decode(0x8AB4), Ok(Instruction::Add(0xA, 0xB)));
    assert_eq!(decode(0xD123), Ok(Instruction::Draw(1, 2, 3)));
}

#[test]
fn rejects_unknown_patterns() {
    for op in [0x5AB1u16, 0x5AB5, 0x8AB8, 0x8ABF, 0x9AB1, 0xE19F, 0xEFA2, 0xF000, 0xF1FF, 0xF166] {
        assert_eq!(decode(op), Err(DecodeError::Unknown(op)), "opcode {:04X}", op);
    }
}

#[test]
fn every_opcode_decodes_or_is_rejected_consistently() {
    let mut known: u32 = 0;
    for op in 0..=u16::MAX {
        match decode(op) {
            Ok(_) => known += 1,
            Err(e) => assert_eq!(e, DecodeError::Unknown(op)),
        }
    }
    // 0nnn, 1nnn, 2nnn, Annn, Bnnn: 4096 each (00E0 and 00EE among the first);
    // 3xkk, 4xkk, 6xkk, 7xkk, Cxkk, Dxyn: 4096 each; 5xy0, 9xy0: 256 each;
    // nine 8xyN forms: 256 each; two Ex forms and nine Fx forms: 16 each.
    assert_eq!(known, 11 * 4096 + 2 * 256 + 9 * 256 + 11 * 16);
}
