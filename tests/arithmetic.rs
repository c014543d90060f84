use chip8::{Flow, Instruction, Machine, Timers};

fn machine() -> Machine {
    Machine::load(&[]).unwrap()
}

fn run(m: &mut Machine, t: &mut Timers, ins: Instruction) -> Flow {
    m.execute(ins, t, 0).unwrap()
}

fn with_pair(a: u8, b: u8) -> (Machine, Timers) {
    let mut m = machine();
    let mut t = Timers::new();
    run(&mut m, &mut t, Instruction::LoadImm(1, a));
    run(&mut m, &mut t, Instruction::LoadImm(2, b));
    (m, t)
}

#[test]
fn add_sets_carry_on_overflow() {
    let (mut m, mut t) = with_pair(200, 100);
    assert_eq!(run(&mut m, &mut t, Instruction::Add(1, 2)), Flow::Next);
    assert_eq!(m.register(1), 44);
    assert_eq!(m.register(0xF), 1);
}

#[test]
fn add_clears_carry_without_overflow() {
    let (mut m, mut t) = with_pair(100, 155);
    run(&mut m, &mut t, Instruction::LoadImm(0xF, 1));
    run(&mut m, &mut t, Instruction::Add(1, 2));
    assert_eq!(m.register(1), 255);
    assert_eq!(m.register(0xF), 0);
}

#[test]
fn add_carry_law_over_all_pairs() {
    for a in 0..=255u8 {
        for b in (0..=255u8).step_by(7) {
            let (mut m, mut t) = with_pair(a, b);
            run(&mut m, &mut t, Instruction::Add(1, 2));
            let s = a as u32 + b as u32;
            assert_eq!(m.register(1) as u32, s % 256);
            assert_eq!(m.register(0xF), if s > 255 { 1 } else { 0 });
        }
    }
}

#[test]
fn add_into_flag_register_keeps_the_sum() {
    let (mut m, mut t) = with_pair(0, 250);
    run(&mut m, &mut t, Instruction::LoadImm(0xF, 10));
    run(&mut m, &mut t, Instruction::Add(0xF, 2));
    assert_eq!(m.register(0xF), 4);
}

#[test]
fn add_immediate_wraps_without_flag() {
    let (mut m, mut t) = with_pair(250, 0);
    run(&mut m, &mut t, Instruction::AddImm(1, 10));
    assert_eq!(m.register(1), 4);
    assert_eq!(m.register(0xF), 0);
}

#[test]
fn sub_flag_is_no_borrow() {
    let (mut m, mut t) = with_pair(10, 5);
    run(&mut m, &mut t, Instruction::Sub(1, 2));
    assert_eq!((m.register(1), m.register(0xF)), (5, 1));

    let (mut m, mut t) = with_pair(5, 10);
    run(&mut m, &mut t, Instruction::Sub(1, 2));
    assert_eq!((m.register(1), m.register(0xF)), (251, 0));

    let (mut m, mut t) = with_pair(7, 7);
    run(&mut m, &mut t, Instruction::Sub(1, 2));
    assert_eq!((m.register(1), m.register(0xF)), (0, 1));
}

#[test]
fn subn_reverses_the_operands() {
    let (mut m, mut t) = with_pair(5, 10);
    run(&mut m, &mut t, Instruction::SubN(1, 2));
    assert_eq!((m.register(1), m.register(0xF)), (5, 1));

    let (mut m, mut t) = with_pair(10, 5);
    run(&mut m, &mut t, Instruction::SubN(1, 2));
    assert_eq!((m.register(1), m.register(0xF)), (251, 0));

    let (mut m, mut t) = with_pair(9, 9);
    run(&mut m, &mut t, Instruction::SubN(1, 2));
    assert_eq!((m.register(1), m.register(0xF)), (0, 1));
}

#[test]
fn sub_borrow_law_over_all_pairs() {
    for a in (0..=255u8).step_by(3) {
        for b in (0..=255u8).step_by(5) {
            let (mut m, mut t) = with_pair(a, b);
            run(&mut m, &mut t, Instruction::Sub(1, 2));
            assert_eq!(m.register(1), a.wrapping_sub(b));
            assert_eq!(m.register(0xF), (a >= b) as u8);
            let (mut m, mut t) = with_pair(a, b);
            run(&mut m, &mut t, Instruction::SubN(1, 2));
            assert_eq!(m.register(1), b.wrapping_sub(a));
            assert_eq!(m.register(0xF), (b >= a) as u8);
        }
    }
}

#[test]
fn shifts_copy_the_source_and_flag_the_lost_bit() {
    let (mut m, mut t) = with_pair(0, 0b1000_0011);
    run(&mut m, &mut t, Instruction::ShiftRight(1, 2));
    assert_eq!((m.register(1), m.register(0xF)), (0b0100_0001, 1));
    run(&mut m, &mut t, Instruction::ShiftLeft(1, 2));
    assert_eq!((m.register(1), m.register(0xF)), (0b0000_0110, 1));

    let (mut m, mut t) = with_pair(0, 0b0100_0010);
    run(&mut m, &mut t, Instruction::ShiftRight(1, 2));
    assert_eq!((m.register(1), m.register(0xF)), (0b0010_0001, 0));
    run(&mut m, &mut t, Instruction::ShiftLeft(1, 2));
    assert_eq!((m.register(1), m.register(0xF)), (0b1000_0100, 0));
}

#[test]
fn bitwise_operations_leave_the_flag() {
    let (mut m, mut t) = with_pair(0b1100, 0b1010);
    run(&mut m, &mut t, Instruction::LoadImm(0xF, 9));
    run(&mut m, &mut t, Instruction::LoadReg(3, 1));
    run(&mut m, &mut t, Instruction::Or(3, 2));
    assert_eq!(m.register(3), 0b1110);
    run(&mut m, &mut t, Instruction::LoadReg(3, 1));
    run(&mut m, &mut t, Instruction::And(3, 2));
    assert_eq!(m.register(3), 0b1000);
    run(&mut m, &mut t, Instruction::LoadReg(3, 1));
    run(&mut m, &mut t, Instruction::Xor(3, 2));
    assert_eq!(m.register(3), 0b0110);
    assert_eq!(m.register(0xF), 9);
}

#[test]
fn random_masks_the_drawn_byte() {
    let mut m = machine();
    let mut t = Timers::new();
    m.execute(Instruction::Random(4, 0x0F), &mut t, 0xAB).unwrap();
    assert_eq!(m.register(4), 0x0B);
    m.execute(Instruction::Random(4, 0x00), &mut t, 0xFF).unwrap();
    assert_eq!(m.register(4), 0);
}
