//! The state of the terminal front-end apart from drawing: the key bindings
//! and the text shown in its panes.
use vstd::prelude::*;
use vstd::utf8::is_char_boundary;

use crate::cpu::CpuError;
use crate::input::{utf8, UserInputManager};
use crate::instructions::Instruction;
use crate::register::Register;
use crate::text::{decimal, hex_min, pad_left, pad_right, push_char, push_hex_min, push_padded, push_padded_right, push_unsigned};

verus! {

/// A key pressed in the terminal, as far as the front-end tells keys apart.
#[derive(Debug, Clone, Copy, PartialEq, Eq, Structural)]
pub enum Key {
    Left,
    Right,
    Up,
    Down,
    Char(char),
    Backspace,
    Enter,
    Esc,
    Other,
}

/// What the front-end asks for after a key.
#[derive(Debug)]
pub enum Job {
    /// Execute this many instructions.
    Step(usize),
    AutoStepOn,
    AutoStepOff,
    /// Send this text to UART0.
    ReadUart(String),
    Idle,
    Exit,
}

/// The front-end: the text received from UART0, the input box, and the
/// auto-step, help and insert modes.
pub struct ViewState {
    pub uart: String,
    pub user_input_manager: UserInputManager,
    pub auto_step: bool,
    pub show_help: bool,
    pub insert_mode: bool,
}

impl ViewState {
    pub open spec fn wf(self) -> bool {
        self.user_input_manager.wf()
    }

    /// `on_key` does not panic on `key`: in insert mode a typed character
    /// goes in at a character boundary, and a deleted one ends at one.
    pub open spec fn key_allowed(self, key: Key) -> bool {
        let m = self.user_input_manager;
        self.insert_mode ==> match key {
            Key::Char(_) => is_char_boundary(utf8(m.input()), m.cursor() as int) && m.cursor() < usize::MAX,
            Key::Backspace => 0 < m.cursor() <= utf8(m.input()).len() ==> is_char_boundary(
                utf8(m.input()),
                m.cursor() - 1,
            ),
            _ => true,
        }
    }

    /// `new` and `job` are the outcome of `key`. In insert mode the arrows
    /// move the cursor (left, right) or go through the history (up, down), a
    /// character is typed, backspace deletes, enter sends the line and escape
    /// leaves insert mode. Otherwise `a` toggles auto-step, `h` the help, `i`
    /// enters insert mode, `q` quits and `s` executes one instruction; other
    /// keys do nothing.
    pub open spec fn on_key_outcome(self, key: Key, new: Self, job: Job) -> bool {
        let m = self.user_input_manager;
        let nm = new.user_input_manager;
        &&& new.uart == self.uart
        &&& if self.insert_mode {
            &&& new.auto_step == self.auto_step
            &&& new.show_help == self.show_help
            &&& new.insert_mode == (key != Key::Esc)
            &&& match key {
                Key::Left => m.moved_left(nm) && job is Idle,
                Key::Right => m.moved_right(nm) && job is Idle,
                Key::Up => m.went_back(nm) && job is Idle,
                Key::Down => m.went_forward(nm) && job is Idle,
                Key::Char(c) => m.inserted(nm, c) && job is Idle,
                Key::Backspace => m.removed(nm) && job is Idle,
                Key::Enter => job is ReadUart && m.finished(nm, job->ReadUart_0@),
                _ => nm == m && job is Idle,
            }
        } else {
            &&& nm == m
            &&& new.insert_mode == (key == Key::Char('i'))
            &&& new.auto_step == (if key == Key::Char('a') { !self.auto_step } else { self.auto_step })
            &&& new.show_help == (if key == Key::Char('h') { !self.show_help } else { self.show_help })
            &&& if key == Key::Char('a') {
                if new.auto_step { job is AutoStepOn } else { job is AutoStepOff }
            } else if key == Key::Char('q') {
                job is Exit
            } else if key == Key::Char('s') {
                job matches Job::Step(n) && n == 1
            } else {
                job is Idle
            }
        }
    }

    /// Nothing received, an empty input box, help shown, auto-step and
    /// insert mode off.
    pub fn new() -> (v: Self)
        ensures
            v.wf(),
            v.uart@ == Seq::<char>::empty(),
            v.user_input_manager.input() == Seq::<char>::empty(),
            v.user_input_manager.cursor() == 0,
            v.user_input_manager.history() == Seq::<Seq<char>>::empty(),
            !v.auto_step,
            v.show_help,
            !v.insert_mode,
    {
        ViewState {
            uart: String::new(),
            user_input_manager: UserInputManager::new(),
            auto_step: false,
            show_help: true,
            insert_mode: false,
        }
    }

    /// Handles a key; see `on_key_outcome`.
    pub fn on_key(&mut self, key: Key) -> (job: Job)
        requires
            old(self).wf(),
            old(self).key_allowed(key),
        ensures
            final(self).wf(),
            old(self).on_key_outcome(key, *final(self), job),
    {
        if self.insert_mode {
            match key {
                Key::Left => {
                    self.user_input_manager.move_cursor_left();
                },
                Key::Right => {
                    self.user_input_manager.move_cursor_right();
                },
                Key::Up => {
                    self.user_input_manager.set_to_previous_input();
                },
                Key::Down => {
                    self.user_input_manager.set_to_next_input();
                },
                Key::Char(to_insert) => self.user_input_manager.insert_char(to_insert),
                Key::Backspace => {
                    self.user_input_manager.remove_char();
                },
                Key::Enter => {
                    if let Some(input) = self.user_input_manager.finish_current_input() {
                        let job = Job::ReadUart(input);
                        return job;
                    }
                },
                Key::Esc => {
                    self.insert_mode = false;
                },
                _ => {},
            }
        } else {
            match key {
                Key::Char('a') => {
                    self.auto_step = !self.auto_step;
                    return if self.auto_step {
                        Job::AutoStepOn
                    } else {
                        Job::AutoStepOff
                    };
                },
                Key::Char('h') => {
                    self.show_help = !self.show_help;
                },
                Key::Char('i') => {
                    self.insert_mode = true;
                },
                Key::Char('q') => {
                    return Job::Exit;
                },
                Key::Char('s') => {
                    return Job::Step(1);
                },
                _ => {},
            }
        }
        Job::Idle
    }

    /// Whether auto-step is on.
    pub fn _is_auto_step(&self) -> (r: bool)
        ensures
            r == self.auto_step,
    {
        self.auto_step
    }
}

/// A line of an instruction listing: `0x`, the address in at least eight
/// upper case hex digits, `: `, the text and a newline.
pub open spec fn listing_line(addr: nat, text: Seq<char>) -> Seq<char> {
    seq!['0', 'x'] + hex_min(addr, 8) + seq![':', ' '] + text + seq!['\n']
}

/// The line of a log entry: the instruction with its address, or an empty line.
pub open spec fn log_entry_text(e: Option<(usize, Instruction)>) -> Seq<char> {
    match e {
        Some(p) => listing_line(p.0 as nat, p.1.text()),
        None => seq!['\n'],
    }
}

/// The lines of the log entries, oldest first.
pub open spec fn log_lines(entries: Seq<Option<(usize, Instruction)>>) -> Seq<char>
    decreases entries.len(),
{
    if entries.len() == 0 {
        Seq::empty()
    } else {
        log_lines(entries.drop_last()) + log_entry_text(entries.last())
    }
}

/// The pane of the last instructions, `rows` lines high: empty lines on top
/// where there are fewer entries, then the entries.
pub open spec fn instruction_log(entries: Seq<Option<(usize, Instruction)>>, rows: nat) -> Seq<char> {
    Seq::new(if rows > entries.len() { (rows - entries.len()) as nat } else { 0 }, |i: int| '\n') + log_lines(entries)
}

/// The line of an entry of a listing: the instruction, or the word that is
/// none, in eight upper case hex digits.
pub open spec fn next_entry_text(e: (usize, Result<Instruction, u32>)) -> Seq<char> {
    match e.1 {
        Ok(inst) => listing_line(e.0 as nat, inst.text()),
        Err(word) => listing_line(e.0 as nat, hex_min(word as nat, 8)),
    }
}

/// The lines of the entries of a listing.
pub open spec fn next_lines(list: Seq<(usize, Result<Instruction, u32>)>) -> Seq<char>
    decreases list.len(),
{
    if list.len() == 0 {
        Seq::empty()
    } else {
        next_lines(list.drop_last()) + next_entry_text(list.last())
    }
}

/// The pane of the current instruction.
pub open spec fn current_text(r: Result<(usize, Instruction), CpuError>) -> Seq<char> {
    match r {
        Ok(p) => seq!['0', 'x'] + hex_min(p.0 as nat, 8) + seq![':', ' '] + p.1.text(),
        Err(_) => "Failed to parse."@,
    }
}

/// The line of register `x[num]` in the register pane: `x`, the number
/// left-aligned in two columns, ` /`, the register's line, ` | ` and a comment.
pub open spec fn register_line(rf: Register, num: nat, comment: Seq<char>) -> Seq<char> {
    seq!['x'] + pad_right(decimal(num as int), 2) + seq![' ', '/'] + rf.line(num as usize) + seq![' ', '|', ' ']
        + comment + seq!['\n']
}

/// The lines of the registers `from` to `to - 1`, all with the same comment.
pub open spec fn register_lines(rf: Register, from: nat, to: nat, comment: Seq<char>) -> Seq<char>
    decreases to,
{
    if to <= from {
        Seq::empty()
    } else {
        register_lines(rf, from, (to - 1) as nat, comment) + register_line(rf, (to - 1) as nat, comment)
    }
}

/// The line of the program counter: in eight upper case hex digits and in
/// decimal, right-aligned in eleven columns.
pub open spec fn pc_line(pc: u32) -> Seq<char> {
    "pc  /none: 0x"@ + hex_min(pc as nat, 8) + seq![' ', '/', ' '] + pad_left(decimal(pc as int), 11)
        + " | programm counter"@ + seq!['\n']
}

/// The left column of the register pane: the program counter and the
/// registers with a fixed role, then the argument registers.
pub open spec fn left_register_column(rf: Register) -> Seq<char> {
    pc_line(rf.pc) + register_line(rf, 0, "Always zero!"@) + register_line(rf, 1, "Return address"@) + register_line(
        rf,
        2,
        "Stack pointer"@,
    ) + register_line(rf, 3, "Global pointer"@) + register_line(rf, 4, "Thread pointer"@) + register_line(
        rf,
        8,
        "Frame pointer"@,
    ) + seq!['\n'] + register_lines(rf, 10, 12, "return value/fn arg"@) + register_lines(
        rf,
        12,
        18,
        "function argument"@,
    ) + seq!['\n']
}

/// The right column of the register pane: the saved, then the temporary registers.
pub open spec fn right_register_column(rf: Register) -> Seq<char> {
    register_line(rf, 8, "saved register"@) + register_line(rf, 9, "saved register"@) + register_lines(
        rf,
        18,
        28,
        "saved register"@,
    ) + seq!['\n'] + register_lines(rf, 5, 8, "temporary register"@) + register_lines(
        rf,
        28,
        32,
        "temporary register"@,
    ) + seq!['\n']
}

/// Appends a line of an instruction listing.
fn push_listing_line(s: &mut String, addr: usize, text: &str)
    ensures
        final(s)@ == old(s)@ + listing_line(addr as nat, text@),
{
    push_char(s, '0');
    push_char(s, 'x');
    push_hex_min(s, addr as u64, 8);
    push_char(s, ':');
    push_char(s, ' ');
    s.append(text);
    push_char(s, '\n');
    assert(final(s)@ =~= old(s)@ + listing_line(addr as nat, text@));
}

/// The pane of the last instructions; see `instruction_log`.
pub fn instruction_log_text(entries: &Vec<Option<(usize, Instruction)>>, rows: usize) -> (s: String)
    requires
        forall|i: int| 0 <= i < entries@.len() ==> (#[trigger] entries@[i] matches Some(p) ==> p.1.wf()),
    ensures
        s@ == instruction_log(entries@, rows as nat),
{
    let mut s = String::new();
    let mut k = entries.len();
    while k < rows
        invariant
            entries@.len() <= k <= rows || k == entries@.len(),
            s@ == Seq::new((k - entries@.len()) as nat, |i: int| '\n'),
        decreases rows - k,
    {
        push_char(&mut s, '\n');
        k = k + 1;
        assert(s@ =~= Seq::new((k - entries@.len()) as nat, |i: int| '\n'));
    }
    let ghost pad = s@;
    assert(pad =~= Seq::new(if rows > entries@.len() { (rows - entries@.len()) as nat } else { 0 }, |i: int| '\n'));
    let mut i: usize = 0;
    while i < entries.len()
        invariant
            i <= entries@.len(),
            forall|j: int| 0 <= j < entries@.len() ==> (#[trigger] entries@[j] matches Some(p) ==> p.1.wf()),
            s@ == pad + log_lines(entries@.take(i as int)),
        decreases entries@.len() - i,
    {
        assert(entries@.take(i + 1).drop_last() =~= entries@.take(i as int));
        match entries[i] {
            Some((addr, inst)) => {
                let text = inst.print();
                push_listing_line(&mut s, addr, text.as_str());
            },
            None => {
                push_char(&mut s, '\n');
            },
        }
        i = i + 1;
        assert(s@ =~= pad + log_lines(entries@.take(i as int)));
    }
    assert(entries@.take(i as int) =~= entries@);
    s
}

/// The pane of the next instructions: the entries of a listing after the
/// first, which is the current instruction.
pub fn next_instructions_text(list: &Vec<(usize, Result<Instruction, u32>)>) -> (s: String)
    requires
        list@.len() > 0,
        forall|i: int| 0 <= i < list@.len() ==> ((#[trigger] list@[i]).1 matches Ok(inst) ==> inst.wf()),
    ensures
        s@ == next_lines(list@.skip(1)),
{
    let mut s = String::new();
    let mut i: usize = 1;
    while i < list.len()
        invariant
            1 <= i <= list@.len(),
            forall|j: int| 0 <= j < list@.len() ==> ((#[trigger] list@[j]).1 matches Ok(inst) ==> inst.wf()),
            s@ == next_lines(list@.subrange(1, i as int)),
        decreases list@.len() - i,
    {
        assert(list@.subrange(1, i + 1).drop_last() =~= list@.subrange(1, i as int));
        let (addr, entry) = list[i];
        match entry {
            Ok(inst) => {
                let text = inst.print();
                push_listing_line(&mut s, addr, text.as_str());
            },
            Err(word) => {
                let mut text = String::new();
                push_hex_min(&mut text, word as u64, 8);
                push_listing_line(&mut s, addr, text.as_str());
            },
        }
        i = i + 1;
    }
    assert(list@.subrange(1, i as int) =~= list@.skip(1));
    s
}

/// The pane of the current instruction; see `current_text`.
pub fn current_instruction_text(r: &Result<(usize, Instruction), CpuError>) -> (s: String)
    requires
        r matches Ok(p) ==> p.1.wf(),
    ensures
        s@ == current_text(*r),
{
    match r {
        Ok((addr, inst)) => {
            let mut s = String::new();
            push_char(&mut s, '0');
            push_char(&mut s, 'x');
            push_hex_min(&mut s, *addr as u64, 8);
            push_char(&mut s, ':');
            push_char(&mut s, ' ');
            let text = inst.print();
            s.append(text.as_str());
            assert(s@ =~= current_text(*r));
            s
        },
        Err(_) => "Failed to parse.".to_owned(),
    }
}

/// Appends the line of register `x[num]`; see `register_line`.
fn push_register_line(s: &mut String, rf: &Register, num: usize, comment: &str)
    requires
        rf.wf(),
        num < 32,
    ensures
        final(s)@ == old(s)@ + register_line(*rf, num as nat, comment@),
{
    push_char(s, 'x');
    let mut number = String::new();
    push_unsigned(&mut number, num as u64);
    push_padded_right(s, number.as_str(), 2);
    push_char(s, ' ');
    push_char(s, '/');
    let line = rf.to_string(num);
    s.append(line.as_str());
    push_char(s, ' ');
    push_char(s, '|');
    push_char(s, ' ');
    s.append(comment);
    push_char(s, '\n');
    assert(decimal(num as int) == crate::text::decimal_digits(num as nat));
    assert(final(s)@ =~= old(s)@ + register_line(*rf, num as nat, comment@));
}

/// Appends the lines of the registers `from` to `to - 1`.
fn push_register_lines(s: &mut String, rf: &Register, from: usize, to: usize, comment: &str)
    requires
        rf.wf(),
        from <= to <= 32,
    ensures
        final(s)@ == old(s)@ + register_lines(*rf, from as nat, to as nat, comment@),
{
    let ghost start = s@;
    let mut i = from;
    while i < to
        invariant
            from <= i <= to <= 32,
            rf.wf(),
            s@ == start + register_lines(*rf, from as nat, i as nat, comment@),
        decreases to - i,
    {
        push_register_line(s, rf, i, comment);
        i = i + 1;
        assert(s@ =~= start + register_lines(*rf, from as nat, i as nat, comment@));
    }
}

/// The two columns of the register pane; see `left_register_column` and
/// `right_register_column`.
pub fn register_table_text(rf: &Register) -> (columns: (String, String))
    requires
        rf.wf(),
    ensures
        columns.0@ == left_register_column(*rf),
        columns.1@ == right_register_column(*rf),
{
    let mut res = String::new();
    res.append("pc  /none: 0x");
    push_hex_min(&mut res, rf.pc as u64, 8);
    push_char(&mut res, ' ');
    push_char(&mut res, '/');
    push_char(&mut res, ' ');
    let mut number = String::new();
    push_unsigned(&mut number, rf.pc as u64);
    push_padded(&mut res, number.as_str(), 11);
    res.append(" | programm counter");
    push_char(&mut res, '\n');
    assert(decimal(rf.pc as int) == crate::text::decimal_digits(rf.pc as nat));
    assert(res@ =~= pc_line(rf.pc));
    push_register_line(&mut res, rf, 0, "Always zero!");
    push_register_line(&mut res, rf, 1, "Return address");
    push_register_line(&mut res, rf, 2, "Stack pointer");
    push_register_line(&mut res, rf, 3, "Global pointer");
    push_register_line(&mut res, rf, 4, "Thread pointer");
    push_register_line(&mut res, rf, 8, "Frame pointer");
    push_char(&mut res, '\n');
    push_register_lines(&mut res, rf, 10, 12, "return value/fn arg");
    push_register_lines(&mut res, rf, 12, 18, "function argument");
    push_char(&mut res, '\n');
    assert(res@ =~= left_register_column(*rf));

    let mut right = String::new();
    push_register_line(&mut right, rf, 8, "saved register");
    push_register_line(&mut right, rf, 9, "saved register");
    push_register_lines(&mut right, rf, 18, 28, "saved register");
    push_char(&mut right, '\n');
    push_register_lines(&mut right, rf, 5, 8, "temporary register");
    push_register_lines(&mut right, rf, 28, 32, "temporary register");
    push_char(&mut right, '\n');
    assert(right@ =~= right_register_column(*rf));
    (res, right)
}

} // verus!
