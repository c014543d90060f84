use chip8::{hex_digit, keypad_code, Fault, Instruction, Machine, Outcome, Timers, QUIT_KEY};

fn all_dark(m: &Machine) -> bool {
    (0..32).all(|row| (0..64).all(|col| m.pixel(row, col) == 0))
}

#[test]
fn clear_then_jump_back_loops_at_start() {
    let mut m = Machine::load(&[0x00, 0xE0, 0x12, 0x00]).unwrap();
    let mut t = Timers::new();
    for _ in 0..50 {
        assert_eq!(m.step(&mut t), Ok(Outcome::Executed));
        assert_eq!(m.pc(), 0x202);
        assert!(all_dark(&m));
        assert_eq!(m.step(&mut t), Ok(Outcome::Executed));
        assert_eq!(m.pc(), 0x200);
        assert!(all_dark(&m));
    }
}

#[test]
fn small_program_runs_to_its_return() {
    // V0 = 5; V1 = 3; V0 += V1; return (with nothing to return to).
    let mut m = Machine::load(&[0x60, 0x05, 0x61, 0x03, 0x80, 0x14, 0x00, 0xEE]).unwrap();
    let mut t = Timers::new();
    for _ in 0..3 {
        assert_eq!(m.step(&mut t), Ok(Outcome::Executed));
    }
    assert_eq!(m.register(0), 8);
    assert_eq!(m.register(1), 3);
    assert_eq!(m.register(0xF), 0);
    assert_eq!(m.pc(), 0x206);
    assert_eq!(m.step(&mut t), Err(Fault::StackUnderflow));
    assert_eq!(m.pc(), 0x206);
}

#[test]
fn undecodable_opcode_is_passed_over() {
    let mut m = Machine::load(&[0x5A, 0xB1, 0x60, 0x07]).unwrap();
    let mut t = Timers { delay: 3, sound: 4 };
    assert_eq!(m.step(&mut t), Ok(Outcome::Undecoded));
    assert_eq!(m.pc(), 0x202);
    for r in 0..16 {
        assert_eq!(m.register(r), 0);
    }
    assert_eq!(m.index(), 0);
    assert_eq!(m.stack_depth(), 0);
    assert_eq!(t, Timers { delay: 3, sound: 4 });
    assert!(all_dark(&m));
    assert_eq!(m.step(&mut t), Ok(Outcome::Executed));
    assert_eq!(m.register(0), 7);
}

#[test]
fn subroutine_call_and_return_resume_after_the_call() {
    // 0x200: call 0x206; 0x202: V2 = 1; 0x204: jump 0x204; 0x206: V1 = 9; 0x208: return
    let rom = [0x22, 0x06, 0x62, 0x01, 0x12, 0x04, 0x61, 0x09, 0x00, 0xEE];
    let mut m = Machine::load(&rom).unwrap();
    let mut t = Timers::new();
    m.step(&mut t).unwrap();
    assert_eq!((m.pc(), m.stack_depth()), (0x206, 1));
    m.step(&mut t).unwrap();
    m.step(&mut t).unwrap();
    assert_eq!((m.pc(), m.stack_depth()), (0x202, 0));
    m.step(&mut t).unwrap();
    assert_eq!((m.register(1), m.register(2)), (9, 1));
    m.step(&mut t).unwrap();
    assert_eq!(m.pc(), 0x204);
}

#[test]
fn draw_step_asks_for_redraw() {
    let mut m = Machine::load(&[0xD0, 0x05]).unwrap();
    let mut t = Timers::new();
    assert_eq!(m.step(&mut t), Ok(Outcome::Redraw));
    assert_eq!(m.pc(), 0x202);
    let row: String = m.row_text(0).into_iter().collect();
    assert_eq!(row.len(), 64);
    assert_eq!(&row[..8], "####    ");
    assert_eq!(row[8..].trim(), "");
    let row: String = m.row_text(1).into_iter().collect();
    assert_eq!(&row[..8], "#  #    ");
}

#[test]
fn step_with_random_uses_the_given_byte() {
    let mut m = Machine::load(&[0xC3, 0x3C]).unwrap();
    let mut t = Timers::new();
    assert_eq!(m.step_with(&mut t, 0xFF), Ok(Outcome::Executed));
    assert_eq!(m.register(3), 0x3C);
}

#[test]
fn step_random_stays_within_mask() {
    for _ in 0..20 {
        let mut m = Machine::load(&[0xC3, 0x0F]).unwrap();
        let mut t = Timers::new();
        assert_eq!(m.step(&mut t), Ok(Outcome::Executed));
        assert_eq!(m.register(3) & 0xF0, 0);
    }
}

#[test]
fn fetch_past_end_of_memory_faults() {
    let mut m = Machine::load(&[0x1F, 0xFF]).unwrap();
    let mut t = Timers::new();
    assert_eq!(m.fetch(), Ok(0x1FFF));
    m.step(&mut t).unwrap();
    assert_eq!(m.pc(), 0xFFF);
    assert_eq!(m.fetch(), Err(Fault::AddressOutOfRange));
    assert_eq!(m.step(&mut t), Err(Fault::AddressOutOfRange));
    assert_eq!(m.pc(), 0xFFF);
}

#[test]
fn wait_key_blocks_until_a_keypad_key() {
    let mut m = Machine::load(&[0xF5, 0x0A, 0x60, 0x01]).unwrap();
    let mut t = Timers::new();
    assert_eq!(m.step(&mut t), Ok(Outcome::Waiting));
    assert_eq!(m.waiting_for_key(), Some(5));
    assert_eq!(m.pc(), 0x202);
    assert_eq!(m.step(&mut t), Ok(Outcome::Waiting));
    assert_eq!(m.pc(), 0x202);
    assert!(!m.press_key('p'));
    assert_eq!(m.waiting_for_key(), Some(5));
    assert!(!m.press_key('V'));
    assert_eq!(m.waiting_for_key(), None);
    assert_eq!(m.register(5), 0xF);
    assert_eq!(m.current_key(), None);
    assert_eq!(m.step(&mut t), Ok(Outcome::Executed));
    assert_eq!(m.register(0), 1);
}

#[test]
fn quit_key_changes_nothing() {
    let mut m = Machine::load(&[0xF5, 0x0A]).unwrap();
    let mut t = Timers::new();
    assert!(m.press_key(QUIT_KEY));
    assert_eq!(m.current_key(), None);
    m.step(&mut t).unwrap();
    assert!(m.press_key('q'));
    assert_eq!(m.waiting_for_key(), Some(5));
}

#[test]
fn skip_key_matches_hex_digit_and_consumes_it() {
    // V1 = 0x1A; skip if key "A"; V2 = 1; V2 = 2
    let rom = [0x61, 0x1A, 0xE1, 0x9E, 0x62, 0x01, 0x62, 0x02];
    let mut m = Machine::load(&rom).unwrap();
    let mut t = Timers::new();
    m.step(&mut t).unwrap();
    assert!(!m.press_key('A'));
    assert_eq!(m.current_key(), Some('A'));
    m.step(&mut t).unwrap();
    assert_eq!(m.pc(), 0x206);
    assert_eq!(m.current_key(), None);

    let mut m = Machine::load(&rom).unwrap();
    m.step(&mut t).unwrap();
    assert!(!m.press_key('a'));
    m.step(&mut t).unwrap();
    assert_eq!(m.pc(), 0x204);
    assert_eq!(m.current_key(), Some('a'));
}

#[test]
fn skip_not_key_skips_unless_pressed() {
    // V1 = 3; skip unless key "3"
    let rom = [0x61, 0x03, 0xE1, 0xA1];
    let mut m = Machine::load(&rom).unwrap();
    let mut t = Timers::new();
    m.step(&mut t).unwrap();
    m.step(&mut t).unwrap();
    assert_eq!(m.pc(), 0x206);

    let mut m = Machine::load(&rom).unwrap();
    m.step(&mut t).unwrap();
    m.press_key('3');
    m.step(&mut t).unwrap();
    assert_eq!(m.pc(), 0x204);
    assert_eq!(m.current_key(), Some('3'));
}

#[test]
fn keypad_layout() {
    let keys = "1234QWERASDFZXCV";
    let codes = [0x1, 0x2, 0x3, 0xC, 0x4, 0x5, 0x6, 0xD, 0x7, 0x8, 0x9, 0xE, 0xA, 0x0, 0xB, 0xF];
    for (k, c) in keys.chars().zip(codes) {
        assert_eq!(keypad_code(k), Some(c));
    }
    for k in ['q', 'w', '5', ' ', 'G', '0'] {
        assert_eq!(keypad_code(k), None);
    }
}

#[test]
fn hex_digit_uses_low_nibble() {
    assert_eq!(hex_digit(0x00), '0');
    assert_eq!(hex_digit(0x09), '9');
    assert_eq!(hex_digit(0x0A), 'A');
    assert_eq!(hex_digit(0x1F), 'F');
    assert_eq!(hex_digit(0xF3), '3');
}

#[test]
fn decode_of_sys_address_is_ignored_by_step() {
    let mut m = Machine::load(&[0x03, 0x45]).unwrap();
    let mut t = Timers::new();
    assert_eq!(m.step(&mut t), Ok(Outcome::Executed));
    assert_eq!(m.pc(), 0x202);
    assert_eq!(chip8::decode(0x0345), Ok(Instruction::SysAddr(0x345)));
    assert_eq!(m.memory_at(0x345), 0);
}
