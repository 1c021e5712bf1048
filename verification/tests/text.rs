use triops::cli::{parse_usize, usize_from_str};
use triops::cpu::CpuError;
use triops::events::observed_text;
use triops::input::UserInputManager;
use triops::instructions::Instruction;
use triops::memory::MemoryError;
use triops::register::{index_to_name, Register};
use triops::view::{current_instruction_text, instruction_log_text, next_instructions_text, register_table_text, Job, Key, ViewState};

#[test]
fn prints_instructions() {
    assert_eq!(Instruction::ADDI(10, 0, 5).print(), "addi a0, zero, 5");
    assert_eq!(Instruction::SW(2, 11, -4).print(), "sw sp, a1, -4");
    assert_eq!(Instruction::EBREAK().print(), "ebreak");
    assert_eq!(Instruction::CSRRW(0, 5, 0x305).print(), "csrrw zero, t0, 773");
}

#[test]
fn names_registers() {
    assert_eq!(index_to_name(0), "zero");
    assert_eq!(index_to_name(1), "ra");
    assert_eq!(index_to_name(2), "sp");
    assert_eq!(index_to_name(8), "s0");
    assert_eq!(index_to_name(10), "a0");
    assert_eq!(index_to_name(31), "t6");
}

#[test]
fn register_line() {
    let mut r = Register::default();
    r.write(10, 16);
    r.write(11, 0xFFFF_FFFF);
    assert_eq!(r.to_string(10), "  a0: 0x00000010 /          16");
    assert_eq!(r.to_string(11), "  a1: 0xFFFFFFFF /          -1");
    assert_eq!(r.to_string(0), "zero: 0x00000000 /           0");
}

#[test]
fn register_table_columns() {
    let mut r = Register::default();
    r.pc = 0x8000_0000;
    let (left, right) = register_table_text(&r);
    let first = left.lines().next().unwrap();
    assert_eq!(first, "pc  /none: 0x80000000 /  2147483648 | programm counter");
    assert_eq!(left.lines().nth(1).unwrap(), "x0  /zero: 0x00000000 /           0 | Always zero!");
    assert_eq!(right.lines().next().unwrap(), "x8  /  s0: 0x00000000 /           0 | saved register");
    assert_eq!(left.lines().count(), 17);
    assert_eq!(right.lines().count(), 21);
}

#[test]
fn instruction_panes() {
    let log = vec![None, Some((0x8000_0000usize, Instruction::ADDI(10, 0, 5)))];
    assert_eq!(instruction_log_text(&log, 4), "\n\n\n0x80000000: addi a0, zero, 5\n");
    let next = vec![
        (0x8000_0000usize, Ok(Instruction::ADDI(10, 0, 5))),
        (0x8000_0004usize, Ok(Instruction::EBREAK())),
        (0x8000_0008usize, Err(0x1234u32)),
    ];
    assert_eq!(next_instructions_text(&next), "0x80000004: ebreak\n0x80000008: 00001234\n");
    assert_eq!(current_instruction_text(&Ok((0x20000000, Instruction::EBREAK()))), "0x20000000: ebreak");
    assert_eq!(
        current_instruction_text(&Err(CpuError::Memory(MemoryError::Read(0)))),
        "Failed to parse."
    );
}

#[test]
fn observed_jumps() {
    let mut r = Register::default();
    r.write(1, 0x8000_0100);
    assert_eq!(observed_text(0x8000_0000, Instruction::JAL(1, 16), &r, None), "0x80000000 C/JAL  -> 0x80000010");
    assert_eq!(observed_text(0x8000_0010, Instruction::CJAL(-16), &r, None), "0x80000010 C/JAL  -> 0x80000000");
    assert_eq!(
        observed_text(0x8000_0000, Instruction::JALR(0, 1, 4), &r, Some((Some("main.c".to_owned()), Some(12)))),
        "0x80000100  JALR -> 0x80000104:main.c:12"
    );
    assert_eq!(
        observed_text(0x8000_0000, Instruction::CJALR(1), &r, Some((None, None))),
        "0x80000000 CJALR -> 0x80000100:???:0"
    );
    assert_eq!(observed_text(0, Instruction::ADDI(1, 1, 1), &r, None), "Not implemented");
}

#[test]
fn parses_addresses() {
    assert_eq!(parse_usize("0x20000000"), Some(0x2000_0000));
    assert_eq!(parse_usize("0x8000abcD"), Some(0x8000_ABCD));
    assert_eq!(parse_usize("1234"), Some(1234));
    assert_eq!(parse_usize("+7"), Some(7));
    assert_eq!(parse_usize("0x0x10"), Some(16));
    assert_eq!(parse_usize(""), None);
    assert_eq!(parse_usize("0x"), None);
    assert_eq!(parse_usize("12a"), None);
    assert_eq!(parse_usize("-1"), None);
    assert_eq!(parse_usize("99999999999999999999999"), None);
    assert_eq!(usize_from_str("0x80000000"), 0x8000_0000);
}

#[test]
fn edits_the_input_line() {
    let mut m = UserInputManager::new();
    m.insert_char('h');
    m.insert_char('i');
    assert_eq!(m.user_input, "hi");
    assert_eq!(m.cursor_position, 2);
    m.move_cursor_left();
    m.insert_char('e');
    assert_eq!(m.user_input, "hei");
    m.remove_char();
    assert_eq!(m.user_input, "hi");
    assert_eq!(m.cursor_position, 1);
    m.move_cursor_right();
    m.move_cursor_right();
    assert_eq!(m.cursor_position, 2);
    m.move_cursor_left();
    m.move_cursor_left();
    m.move_cursor_left();
    assert_eq!(m.cursor_position, 0);
    m.remove_char();
    assert_eq!(m.user_input, "hi");
}

#[test]
fn sends_lines_and_keeps_history() {
    let mut m = UserInputManager::new();
    assert_eq!(m.finish_current_input(), Some("\n".to_owned()));
    m._insert_string("ls ");
    assert_eq!(m.finish_current_input(), Some("ls \n".to_owned()));
    assert!(m._input_empty());
    m._insert_string("pwd");
    assert_eq!(m.finish_current_input(), Some("pwd\n".to_owned()));
    m.set_to_previous_input();
    assert_eq!(m.user_input, "pwd");
    assert_eq!(m.cursor_position, 3);
    m.set_to_previous_input();
    assert_eq!(m.user_input, "ls");
    m.set_to_previous_input();
    assert_eq!(m.user_input, "ls");
    m.set_to_next_input();
    assert_eq!(m.user_input, "pwd");
    m.set_to_next_input();
    assert_eq!(m.user_input, "");
    assert_eq!(m.cursor_position, 0);
}

#[test]
fn same_line_is_recorded_once() {
    let mut m = UserInputManager::new();
    m._insert_string("run");
    m.finish_current_input();
    m._insert_string("run");
    m.finish_current_input();
    m.set_to_previous_input();
    assert_eq!(m.user_input, "run");
    m.set_to_previous_input();
    assert_eq!(m.user_input, "run");
    m.set_to_next_input();
    assert_eq!(m.user_input, "");
}

#[test]
fn key_bindings() {
    let mut v = ViewState::new();
    assert!(v.show_help);
    assert!(matches!(v.on_key(Key::Char('s')), Job::Step(1)));
    assert!(matches!(v.on_key(Key::Char('a')), Job::AutoStepOn));
    assert!(v._is_auto_step());
    assert!(matches!(v.on_key(Key::Char('a')), Job::AutoStepOff));
    assert!(matches!(v.on_key(Key::Char('h')), Job::Idle));
    assert!(!v.show_help);
    assert!(matches!(v.on_key(Key::Char('x')), Job::Idle));
    assert!(matches!(v.on_key(Key::Char('q')), Job::Exit));
    assert!(matches!(v.on_key(Key::Char('i')), Job::Idle));
    assert!(v.insert_mode);
    assert!(matches!(v.on_key(Key::Char('q')), Job::Idle));
    assert!(matches!(v.on_key(Key::Char('!')), Job::Idle));
    assert_eq!(v.user_input_manager.user_input, "q!");
    assert!(matches!(v.on_key(Key::Backspace), Job::Idle));
    match v.on_key(Key::Enter) {
        Job::ReadUart(text) => assert_eq!(text, "q\n"),
        _ => panic!("enter sends the line"),
    }
    assert!(matches!(v.on_key(Key::Esc), Job::Idle));
    assert!(!v.insert_mode);
}

#[test]
fn prints_compressed_and_other_instructions() {
    assert_eq!(Instruction::CLI(13, -1).print(), "C.LI a3, -1");
    assert_eq!(Instruction::CJ(8).print(), "C.J 8");
    assert_eq!(Instruction::CEBREAK().print(), "C.EBREAK");
    assert_eq!(Instruction::CSWSP(11, 8).print(), "C.FSDSP a1, 8");
    assert_eq!(Instruction::CMV(10, 11).print(), "C.MV a0, a1");
    assert_eq!(Instruction::MULHU(5, 6, 7).print(), "mulhu t0, t1, t2");
    assert_eq!(Instruction::LUI(2, 0x8000_8000u32 as i32).print(), "lui sp, -2147450880");
    assert_eq!(Instruction::WFI().print(), "WFI");
    assert_eq!(Instruction::LRW(10, 11).print(), "LRW(10, 11)");
    assert_eq!(Instruction::AMOADDW(12, 10, 11).print(), "AMOADDW(12, 10, 11)");
}

#[test]
fn typing_then_deleting_restores_the_line() {
    let mut m = UserInputManager::new();
    m._insert_string("ab");
    m.move_cursor_left();
    m.insert_char('é');
    assert_eq!(m.user_input, "aéb");
    assert_eq!(m.cursor_position, 2);
    m.remove_char();
    assert_eq!(m.user_input, "ab");
    assert_eq!(m.cursor_position, 1);
    m.insert_char('x');
    m.remove_char();
    assert_eq!(m.user_input, "ab");
    assert_eq!(m.cursor_position, 1);
}

#[test]
fn trailing_whitespace_is_trimmed_in_the_history_only() {
    let mut m = UserInputManager::new();
    m._insert_string("make\t \n");
    assert_eq!(m.finish_current_input(), Some("make\t \n".to_owned()));
    m._insert_string("echo");
    assert_eq!(m.finish_current_input(), Some("echo\n".to_owned()));
    m.set_to_previous_input();
    assert_eq!(m.user_input, "echo");
    m.set_to_previous_input();
    assert_eq!(m.user_input, "make");
}
