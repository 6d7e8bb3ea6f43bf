//! The value editor of an input entity (`input_number`, `input_text`,
//! `input_select`, `input_datetime`): what each key does to its buffer and
//! its choice.
use vstd::prelude::*;
use vstd::utf8::encode_utf8;

use crate::dashboard::{Alias, EntityId};
use crate::wizard::{push_char, pop_char, Key};

verus! {

/// The kind of value being edited. A number's bounds and step are
/// fractional; they are kept by the caller, which steps the value.
#[derive(Debug)]
pub enum InputModalKind {
    Number,
    Text { min_length: usize, max_length: usize, password: bool },
    Select { options: Vec<String>, selected: usize },
    DateTime { has_date: bool, has_time: bool },
}

/// An open value editor.
#[derive(Debug)]
pub struct InputModalState {
    pub alias: Alias,
    pub entity_id: EntityId,
    pub friendly_name: String,
    pub kind: InputModalKind,
    pub buffer: String,
    /// Byte position in the buffer (kept at its end).
    pub cursor: usize,
    pub error: Option<String>,
}

/// What a key asks of the caller.
#[derive(Clone, Copy, PartialEq, Eq, Structural, Debug)]
pub enum InputKeyOutcome {
    /// The key was handled here (or ignored).
    Handled,
    /// Enter: validate the buffer and send it.
    Submit,
    /// Up (`true`) or Down on a number: step its value.
    Step(bool),
}

/// `b` is `a` with buffer `buf`, the cursor at its end and no error.
pub open spec fn with_buffer(a: InputModalState, buf: Seq<char>, b: InputModalState) -> bool {
    &&& b.buffer@ == buf
    &&& b.cursor == encode_utf8(buf).len() as usize
    &&& b.error is None
    &&& b.kind == a.kind
    &&& b.alias == a.alias
    &&& b.entity_id == a.entity_id
    &&& b.friendly_name == a.friendly_name
}

/// `b` is `a` with its kind replaced by `k`.
pub open spec fn with_kind(a: InputModalState, k: InputModalKind, b: InputModalState) -> bool {
    b == InputModalState { kind: k, ..a }
}

/// A character a number's buffer takes: a digit, a point, or a minus sign
/// at the start.
pub open spec fn number_char(c: char, buf: Seq<char>) -> bool {
    ('0' <= c && c <= '9') || c == '.' || (c == '-' && buf.len() == 0)
}

/// What `key` does to editor `a`, giving `b` and outcome `r`.
pub open spec fn input_key_spec(a: InputModalState, key: Key, b: InputModalState, r: InputKeyOutcome) -> bool {
    match key {
        Key::Enter => r == InputKeyOutcome::Submit && b == a,
        Key::Backspace => r == InputKeyOutcome::Handled && if a.buffer@.len() > 0 {
            with_buffer(a, a.buffer@.drop_last(), b)
        } else {
            b == InputModalState { error: None, ..a }
        },
        Key::Up => match a.kind {
            InputModalKind::Select { options, selected } => r == InputKeyOutcome::Handled && with_kind(
                a,
                InputModalKind::Select { options, selected: if selected > 0 { (selected - 1) as usize } else { selected } },
                b,
            ),
            InputModalKind::Number => r == InputKeyOutcome::Step(true) && b == a,
            _ => r == InputKeyOutcome::Handled && b == a,
        },
        Key::Down => match a.kind {
            InputModalKind::Select { options, selected } => r == InputKeyOutcome::Handled && with_kind(
                a,
                InputModalKind::Select {
                    options,
                    selected: if selected + 1 < options@.len() { (selected + 1) as usize } else { selected },
                },
                b,
            ),
            InputModalKind::Number => r == InputKeyOutcome::Step(false) && b == a,
            _ => r == InputKeyOutcome::Handled && b == a,
        },
        Key::Char(c) => r == InputKeyOutcome::Handled && match a.kind {
            InputModalKind::Number => if number_char(c, a.buffer@) {
                with_buffer(a, a.buffer@.push(c), b)
            } else {
                b == a
            },
            InputModalKind::Select { .. } => b == a,
            _ => with_buffer(a, a.buffer@.push(c), b),
        },
        _ => r == InputKeyOutcome::Handled && b == a,
    }
}

impl InputModalState {
    /// A value editor opened on `value`, the cursor at its end.
    pub fn open(alias: Alias, entity_id: EntityId, friendly_name: String, kind: InputModalKind, value: String) -> (r: Self)
        ensures
            r.alias == alias,
            r.entity_id == entity_id,
            r.friendly_name == friendly_name,
            r.kind == kind,
            r.buffer == value,
            r.cursor == encode_utf8(value@).len() as usize,
            r.error is None,
    {
        let cursor = value.as_str().len();
        InputModalState { alias, entity_id, friendly_name, kind, buffer: value, cursor, error: None }
    }

    /// Put `text` in the buffer, the cursor at its end, and clear the error.
    pub fn set_buffer(&mut self, text: String)
        ensures
            with_buffer(*old(self), text@, *final(self)),
    {
        self.cursor = text.as_str().len();
        self.buffer = text;
        self.error = None;
    }

    /// Handle a key (Esc, which closes the editor, aside).
    pub fn key(&mut self, key: Key) -> (r: InputKeyOutcome)
        ensures
            input_key_spec(*old(self), key, *final(self), r),
    {
        match key {
            Key::Enter => InputKeyOutcome::Submit,
            Key::Backspace => {
                if crate::strings::char_len(self.buffer.as_str()) > 0 {
                    pop_char(&mut self.buffer);
                    self.cursor = self.buffer.as_str().len();
                }
                self.error = None;
                InputKeyOutcome::Handled
            },
            Key::Up => match &mut self.kind {
                InputModalKind::Select { selected, .. } => {
                    if *selected > 0 {
                        *selected = *selected - 1;
                    }
                    InputKeyOutcome::Handled
                },
                InputModalKind::Number => InputKeyOutcome::Step(true),
                _ => InputKeyOutcome::Handled,
            },
            Key::Down => match &mut self.kind {
                InputModalKind::Select { selected, options } => {
                    if *selected < options.len() && *selected + 1 < options.len() {
                        *selected = *selected + 1;
                    }
                    InputKeyOutcome::Handled
                },
                InputModalKind::Number => InputKeyOutcome::Step(false),
                _ => InputKeyOutcome::Handled,
            },
            Key::Char(c) => {
                let take = match &self.kind {
                    InputModalKind::Number => ('0' <= c && c <= '9') || c == '.' || (c == '-' && crate::strings::char_len(self.buffer.as_str()) == 0),
                    InputModalKind::Select { .. } => false,
                    _ => true,
                };
                if take {
                    push_char(&mut self.buffer, c);
                    self.cursor = self.buffer.as_str().len();
                    self.error = None;
                }
                InputKeyOutcome::Handled
            },
            _ => InputKeyOutcome::Handled,
        }
    }
}

} // verus!
