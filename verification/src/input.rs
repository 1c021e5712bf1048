//! The line editor of the input box: typing, deleting, moving the cursor
//! and going through the lines sent before.
use vstd::prelude::*;
use vstd::utf8::{
    encode_scalar, encode_utf8, encode_utf8_decode_utf8, encode_utf8_first_scalar, encode_utf8_valid_utf8,
    is_char_boundary, is_char_boundary_iff_is_leading_byte, is_leading_byte_width_1, is_leading_byte_width_2,
    is_leading_byte_width_3, is_leading_byte_width_4, length_of_first_scalar, pop_first_scalar,
};

use crate::text::push_char;

verus! {

/// The UTF-8 bytes of a text.
pub open spec fn utf8(s: Seq<char>) -> Seq<u8> {
    encode_utf8(s)
}

/// `ch` inserted at byte position `idx` (std `String::insert`).
#[verifier::external_body]
fn string_insert(s: &mut String, idx: usize, ch: char)
    requires
        is_char_boundary(utf8(old(s)@), idx as int),
    ensures
        utf8(final(s)@) == utf8(old(s)@).take(idx as int) + encode_scalar(ch as u32) + utf8(old(s)@).skip(idx as int),
{
    s.insert(idx, ch);
}

/// The character at byte position `idx` removed (std `String::remove`).
#[verifier::external_body]
fn string_remove(s: &mut String, idx: usize) -> (c: char)
    requires
        is_char_boundary(utf8(old(s)@), idx as int),
        idx < utf8(old(s)@).len(),
    ensures
        utf8(final(s)@) == utf8(old(s)@).take(idx as int) + pop_first_scalar(utf8(old(s)@).skip(idx as int)),
{
    s.remove(idx)
}

/// The length of the text in bytes.
fn string_len(s: &String) -> (r: usize)
    ensures
        r == utf8(s@).len(),
{
    s.as_str().as_bytes().len()
}

/// Whether `c` has the Unicode `White_Space` property, which is what std
/// `char::is_whitespace` tests: tab, line feed, vertical tab, form feed,
/// carriage return, space, next line, no-break space, ogham space mark, the
/// spaces from en quad to hair space, line and paragraph separator, narrow
/// no-break space, medium mathematical space and ideographic space.
pub open spec fn is_white_space(c: char) -> bool {
    let u = c as u32;
    ||| 0x9 <= u <= 0xD
    ||| u == 0x20
    ||| u == 0x85
    ||| u == 0xA0
    ||| u == 0x1680
    ||| 0x2000 <= u <= 0x200A
    ||| u == 0x2028
    ||| u == 0x2029
    ||| u == 0x202F
    ||| u == 0x205F
    ||| u == 0x3000
}

/// The text without its trailing whitespace.
pub open spec fn trimmed_end(s: Seq<char>) -> Seq<char>
    decreases s.len(),
{
    if s.len() > 0 && is_white_space(s.last()) {
        trimmed_end(s.drop_last())
    } else {
        s
    }
}

/// The text without trailing whitespace (std `str::trim_end`, which removes
/// the trailing characters that `char::is_whitespace` accepts).
#[verifier::external_body]
fn trim_end(s: &str) -> (r: &str)
    ensures
        r@ == trimmed_end(s@),
{
    s.trim_end()
}

/// Whether the text ends with `c`.
fn ends_with_char(s: &str, c: char) -> (r: bool)
    ensures
        r == (s@.len() > 0 && s@.last() == c),
{
    let n = s.unicode_len();
    n > 0 && s.get_char(n - 1) == c
}

/// The state of the input box: the line being edited, the byte position of
/// the cursor in it, and the lines sent so far with the one shown from them.
pub struct UserInputManager {
    pub user_input: String,
    user_input_history: Vec<String>,
    user_input_history_index: usize,
    pub cursor_position: usize,
}

impl UserInputManager {
    /// The line being edited.
    pub closed spec fn input(self) -> Seq<char> {
        self.user_input@
    }

    /// The byte position of the cursor in the line.
    pub closed spec fn cursor(self) -> nat {
        self.cursor_position as nat
    }

    /// The lines sent so far, oldest first.
    pub closed spec fn history(self) -> Seq<Seq<char>> {
        Seq::new(self.user_input_history@.len(), |i: int| self.user_input_history@[i]@)
    }

    /// Which line of the history is shown; the length of the history when
    /// none is.
    pub closed spec fn history_index(self) -> nat {
        self.user_input_history_index as nat
    }

    /// The shown line of the history is one of them, or none, and the cursor
    /// stands within the line.
    pub closed spec fn wf(self) -> bool {
        &&& self.history_index() <= self.history().len()
        &&& self.cursor() <= utf8(self.input()).len()
    }

    /// `new` is this state after `insert_char(chr)`: `chr` inserted at the
    /// cursor, which moves on by one.
    pub open spec fn inserted(self, new: Self, chr: char) -> bool {
        &&& utf8(new.input()) == utf8(self.input()).take(self.cursor() as int) + encode_scalar(chr as u32) + utf8(
            self.input(),
        ).skip(self.cursor() as int)
        &&& new.cursor() == self.cursor() + 1
        &&& new.history() == self.history()
        &&& new.history_index() == self.history_index()
    }

    /// `new` is this state after `remove_char`: when the cursor is neither
    /// at the start nor past the end, the character before it is deleted
    /// and it moves back by one; else nothing changes.
    pub open spec fn removed(self, new: Self) -> bool {
        &&& if 0 < self.cursor() <= utf8(self.input()).len() {
            &&& new.cursor() == self.cursor() - 1
            &&& utf8(new.input()) == utf8(self.input()).take(new.cursor() as int) + pop_first_scalar(
                utf8(self.input()).skip(new.cursor() as int),
            )
        } else {
            &&& new.cursor() == self.cursor()
            &&& new.input() == self.input()
        }
        &&& new.history() == self.history()
        &&& new.history_index() == self.history_index()
    }

    /// `new` is this state with the cursor moved back by one, unless it is at the start.
    pub open spec fn moved_left(self, new: Self) -> bool {
        &&& new.cursor() == if self.cursor() > 0 {
            (self.cursor() - 1) as nat
        } else {
            0
        }
        &&& new.input() == self.input()
        &&& new.history() == self.history()
        &&& new.history_index() == self.history_index()
    }

    /// `new` is this state with the cursor moved on by one, unless it is at the end.
    pub open spec fn moved_right(self, new: Self) -> bool {
        &&& new.cursor() == if self.cursor() < utf8(self.input()).len() {
            self.cursor() + 1
        } else {
            self.cursor()
        }
        &&& new.input() == self.input()
        &&& new.history() == self.history()
        &&& new.history_index() == self.history_index()
    }

    /// `new` shows the line sent before the shown one, with the cursor at
    /// its end; at the oldest line nothing changes.
    pub open spec fn went_back(self, new: Self) -> bool {
        &&& new.history() == self.history()
        &&& if self.history_index() > 0 {
            &&& new.history_index() == self.history_index() - 1
            &&& new.input() == self.history()[new.history_index() as int]
            &&& new.cursor() == utf8(new.input()).len()
        } else {
            &&& new.history_index() == self.history_index()
            &&& new.input() == self.input()
            &&& new.cursor() == self.cursor()
        }
    }

    /// `new` shows the line sent after the shown one, with the cursor at its
    /// end, or an empty line after the newest; nothing changes when no line
    /// of the history is shown.
    pub open spec fn went_forward(self, new: Self) -> bool {
        &&& new.history() == self.history()
        &&& if self.history_index() < self.history().len() {
            &&& new.history_index() == self.history_index() + 1
            &&& if new.history_index() == self.history().len() {
                new.input() == Seq::<char>::empty() && new.cursor() == 0
            } else {
                &&& new.input() == self.history()[new.history_index() as int]
                &&& new.cursor() == utf8(new.input()).len()
            }
        } else {
            &&& new.history_index() == self.history_index()
            &&& new.input() == self.input()
            &&& new.cursor() == self.cursor()
        }
    }

    /// `new` and the text `sent` are the outcome of `finish_current_input`.
    /// An empty line is sent as a newline and not recorded. Otherwise the
    /// line, without trailing whitespace, is recorded unless the newest
    /// recorded line equals it; it is sent with a newline at its end, and
    /// the line is emptied. Afterwards no line of the history is shown.
    pub open spec fn finished(self, new: Self, sent: Seq<char>) -> bool {
        &&& new.history_index() == new.history().len()
        &&& if self.input().len() == 0 {
            &&& sent == seq!['\n']
            &&& new.history() == self.history()
            &&& new.input() == self.input()
            &&& new.cursor() == self.cursor()
        } else {
            &&& new.history() == if self.history().len() > 0 && self.history().last() == self.input() {
                self.history()
            } else {
                self.history().push(trimmed_end(self.input()))
            }
            &&& sent == if self.input().last() == '\n' {
                self.input()
            } else {
                self.input().push('\n')
            }
            &&& new.input() == Seq::<char>::empty()
            &&& new.cursor() == 0
        }
    }

    /// An empty line, no history.
    pub fn new() -> (m: Self)
        ensures
            m.wf(),
            m.input() == Seq::<char>::empty(),
            m.cursor() == 0,
            m.history() == Seq::<Seq<char>>::empty(),
            m.history_index() == 0,
    {
        let m = Self { user_input: String::new(), user_input_history: Vec::new(), user_input_history_index: 0, cursor_position: 0 };
        assert(m.history() =~= Seq::<Seq<char>>::empty());
        m
    }

    /// Appends `string` to the line and moves the cursor on by its length in bytes.
    pub fn _insert_string(&mut self, string: &str)
        requires
            old(self).cursor() + utf8(string@).len() <= usize::MAX,
        ensures
            final(self).input() == old(self).input() + string@,
            final(self).cursor() == old(self).cursor() + utf8(string@).len(),
            final(self).history() == old(self).history(),
            final(self).history_index() == old(self).history_index(),
    {
        self.user_input.append(string);
        self.cursor_position = self.cursor_position + string.len();
    }

    /// Inserts `chr` at the cursor and moves the cursor on by one.
    pub fn insert_char(&mut self, chr: char)
        requires
            is_char_boundary(utf8(old(self).input()), old(self).cursor() as int),
            old(self).cursor() < usize::MAX,
        ensures
            old(self).inserted(*final(self), chr),
            old(self).wf() ==> final(self).wf(),
    {
        string_insert(&mut self.user_input, self.cursor_position, chr);
        self.cursor_position = self.cursor_position + 1;
        assert(encode_scalar(chr as u32).len() >= 1);
    }

    /// Deletes the character before the cursor and moves the cursor back by
    /// one, when the cursor is neither at the start nor past the end.
    pub fn remove_char(&mut self)
        requires
            0 < old(self).cursor() <= utf8(old(self).input()).len() ==> is_char_boundary(
                utf8(old(self).input()),
                old(self).cursor() - 1,
            ),
        ensures
            old(self).removed(*final(self)),
            old(self).wf() ==> final(self).wf(),
    {
        if self.cursor_position > 0 && self.cursor_position <= string_len(&self.user_input) {
            self.cursor_position = self.cursor_position - 1;
            string_remove(&mut self.user_input, self.cursor_position);
        }
    }

    /// Moves the cursor back by one, unless it is at the start.
    pub fn move_cursor_left(&mut self)
        ensures
            old(self).moved_left(*final(self)),
            old(self).wf() ==> final(self).wf(),
    {
        self.cursor_position = self.cursor_position.saturating_sub(1);
    }

    /// Moves the cursor on by one, unless it is at the end.
    pub fn move_cursor_right(&mut self)
        ensures
            old(self).moved_right(*final(self)),
            old(self).wf() ==> final(self).wf(),
    {
        if self.cursor_position < string_len(&self.user_input) {
            self.cursor_position = self.cursor_position + 1;
        }
    }

    /// Shows the line sent before the shown one; see `went_back`.
    pub fn set_to_previous_input(&mut self)
        requires
            old(self).wf(),
        ensures
            final(self).wf(),
            old(self).went_back(*final(self)),
    {
        if self.user_input_history_index > 0 {
            self.user_input_history_index = self.user_input_history_index - 1;
            self.user_input = self.user_input_history[self.user_input_history_index].clone();
            self.cursor_position = string_len(&self.user_input);
        }
    }

    /// Shows the line sent after the shown one; see `went_forward`.
    pub fn set_to_next_input(&mut self)
        requires
            old(self).wf(),
        ensures
            final(self).wf(),
            old(self).went_forward(*final(self)),
    {
        if self.user_input_history_index < self.user_input_history.len() {
            self.user_input_history_index = self.user_input_history_index + 1;
            if self.user_input_history_index == self.user_input_history.len() {
                self.user_input = String::new();
                self.cursor_position = 0;
            } else {
                self.user_input = self.user_input_history[self.user_input_history_index].clone();
                self.cursor_position = string_len(&self.user_input);
            }
        }
    }

    /// Takes the line for sending; see `finished`. There is always a line.
    pub fn finish_current_input(&mut self) -> (r: Option<String>)
        requires
            old(self).wf(),
        ensures
            final(self).wf(),
            r is Some,
            old(self).finished(*final(self), r->Some_0@),
    {
        let result;
        if self.user_input.as_str().is_empty() {
            result = Some("\n".to_owned());
            proof {
                reveal_strlit("\n");
            }
        } else {
            let n = self.user_input_history.len();
            let last_input_equals_current = n > 0 && self.user_input_history[n - 1] == self.user_input;
            assert(n > 0 ==> self.history().last() == self.user_input_history@[n - 1]@);
            if !last_input_equals_current {
                let trimmed = trim_end(self.user_input.as_str());
                let ghost h0 = self.history();
                self.user_input_history.push(trimmed.to_owned());
                assert(self.history() =~= h0.push(trimmed_end(old(self).user_input@)));
            }
            if !ends_with_char(self.user_input.as_str(), '\n') {
                push_char(&mut self.user_input, '\n');
            }
            result = Some(self.user_input.clone());
            self.user_input = String::new();
            self.cursor_position = 0;
        }
        self.user_input_history_index = self.user_input_history.len();
        proof {
            assert(self.history_index() == self.history().len());
            if old(self).input().len() == 0 {
                assert(result->Some_0@ == seq!['\n']);
                assert(self.history() == old(self).history());
            } else {
                assert(self.input() == Seq::<char>::empty());
                assert(self.history() == if old(self).history().len() > 0 && old(self).history().last() == old(self).input() {
                    old(self).history()
                } else {
                    old(self).history().push(trimmed_end(old(self).input()))
                });
            }
        }
        result
    }

    /// Whether the line is empty.
    pub fn _input_empty(&self) -> (r: bool)
        ensures
            r == (self.input().len() == 0),
    {
        self.user_input.as_str().is_empty()
    }
}

/// A line sent from the input box comes back first when going back through
/// the history: as it was typed where it equals the newest recorded line,
/// else without its trailing whitespace.
pub proof fn lemma_sent_line_recalled(m0: UserInputManager, m1: UserInputManager, sent: Seq<char>, m2: UserInputManager)
    requires
        m0.wf(),
        m0.input().len() > 0,
        m0.finished(m1, sent),
        m1.went_back(m2),
    ensures
        m2.input() == if m0.history().len() > 0 && m0.history().last() == m0.input() {
            m0.input()
        } else {
            trimmed_end(m0.input())
        },
{
}

/// Trimming never makes a text longer.
proof fn lemma_trimmed_end_len(s: Seq<char>)
    ensures
        trimmed_end(s).len() <= s.len(),
    decreases s.len(),
{
    if s.len() > 0 && is_white_space(s.last()) {
        lemma_trimmed_end_len(s.drop_last());
    }
}

/// A line that has no trailing whitespace is sent with a newline added and
/// recorded as it is, unless the newest recorded line equals it; the line
/// is emptied and no line of the history is shown.
pub proof fn lemma_trimmed_line_finished(m0: UserInputManager, m1: UserInputManager, sent: Seq<char>)
    requires
        m0.input().len() > 0,
        trimmed_end(m0.input()) == m0.input(),
        m0.finished(m1, sent),
    ensures
        sent == m0.input().push('\n'),
        m1.history() == if m0.history().len() > 0 && m0.history().last() == m0.input() {
            m0.history()
        } else {
            m0.history().push(m0.input())
        },
        m1.input() == Seq::<char>::empty(),
        m1.cursor() == 0,
        m1.history_index() == m1.history().len(),
{
    if m0.input().last() == '\n' {
        assert(is_white_space('\n'));
        lemma_trimmed_end_len(m0.input().drop_last());
    }
}

/// The UTF-8 bytes of `chr` begin with a leading byte, their first scalar
/// takes all of them, and whatever follows them is left by popping it.
proof fn lemma_encoded_char_first(chr: char, rest: Seq<u8>)
    ensures
        encode_scalar(chr as u32).len() >= 1,
        is_leading_byte_width_1(encode_scalar(chr as u32)[0]) || is_leading_byte_width_2(encode_scalar(chr as u32)[0])
            || is_leading_byte_width_3(encode_scalar(chr as u32)[0]) || is_leading_byte_width_4(
            encode_scalar(chr as u32)[0],
        ),
        pop_first_scalar(encode_scalar(chr as u32) + rest) == rest,
{
    let e = encode_scalar(chr as u32);
    assert(encode_utf8(seq![chr]) =~= e) by {
        assert(seq![chr].drop_first() =~= Seq::<char>::empty());
        reveal_with_fuel(encode_utf8, 2);
    }
    encode_utf8_first_scalar(seq![chr]);
    assert((e + rest)[0] == e[0]);
    assert(length_of_first_scalar(e + rest) == e.len());
    assert(pop_first_scalar(e + rest) =~= rest);
}

/// Typing a character and then deleting the one before the cursor gives
/// back the line and the cursor as they were, wherever the cursor stood on
/// a character boundary.
pub proof fn lemma_insert_then_remove(m0: UserInputManager, chr: char, m1: UserInputManager, m2: UserInputManager)
    requires
        is_char_boundary(utf8(m0.input()), m0.cursor() as int),
        m0.inserted(m1, chr),
        m1.removed(m2),
    ensures
        0 < m1.cursor() <= utf8(m1.input()).len(),
        is_char_boundary(utf8(m1.input()), m1.cursor() - 1),
        m2.input() == m0.input(),
        m2.cursor() == m0.cursor(),
        m2.history() == m0.history(),
        m2.history_index() == m0.history_index(),
{
    let b = utf8(m0.input());
    let c = m0.cursor() as int;
    let e = encode_scalar(chr as u32);
    let b1 = utf8(m1.input());
    encode_utf8_valid_utf8(m0.input());
    encode_utf8_valid_utf8(m1.input());
    assert(0 <= c <= b.len()) by {
        if c > b.len() {
            assert(!is_char_boundary(b, c));
        }
    }
    lemma_encoded_char_first(chr, b.skip(c));
    assert(b1 == b.take(c) + e + b.skip(c));
    assert(b1.len() == b.len() + e.len());
    assert(b1[c] == e[0]);
    is_char_boundary_iff_is_leading_byte(b1, c);
    assert(b1.take(c) =~= b.take(c));
    assert(b1.skip(c) =~= e + b.skip(c));
    assert(utf8(m2.input()) =~= b);
    encode_utf8_decode_utf8(m2.input());
    encode_utf8_decode_utf8(m0.input());
}

} // verus!
