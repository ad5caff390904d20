use vstd::prelude::*;

use crate::text::{chars_of, string_of};

verus! {

/// The text of a prompt and the place in it where typing happens.
#[derive(Debug)]
pub struct UserInput {
    input_value: Vec<char>,
    input_index: usize,
}

/// What a prompt holds, as mathematics: its characters and the cursor, which
/// counts the characters in front of it.
pub struct UserInputView {
    pub value: Seq<char>,
    pub cursor: nat,
}

impl UserInputView {
    /// The cursor stands somewhere between the first character and the end.
    pub open spec fn wf(self) -> bool {
        self.cursor <= self.value.len()
    }

    /// A prompt holding `text`, with the cursor behind its last character.
    pub open spec fn seeded(text: Seq<char>) -> UserInputView {
        UserInputView { value: text, cursor: text.len() }
    }

    /// The prompt after `c` was typed: `c` goes in at the cursor, and the
    /// cursor moves behind it.
    pub open spec fn typed(self, c: char) -> UserInputView {
        UserInputView { value: self.value.insert(self.cursor as int, c), cursor: self.cursor + 1 }
    }

    /// The prompt after a deletion: the character in front of the cursor goes,
    /// and the cursor moves back by one. At the very start nothing happens.
    pub open spec fn erased(self) -> UserInputView {
        if self.cursor == 0 {
            self
        } else {
            UserInputView {
                value: self.value.remove(self.cursor - 1),
                cursor: (self.cursor - 1) as nat,
            }
        }
    }
}

impl View for UserInput {
    type V = UserInputView;

    closed spec fn view(&self) -> UserInputView {
        UserInputView { value: self.input_value@, cursor: self.input_index as nat }
    }
}

impl Default for UserInput {
    /// An empty prompt.
    fn default() -> (input: Self)
        ensures
            input@ == UserInputView::seeded(Seq::empty()),
            input.wf(),
    {
        Self { input_value: Vec::new(), input_index: 0 }
    }
}

impl UserInput {
    /// Whether the cursor is in range.
    pub open spec fn wf(&self) -> bool {
        self@.wf()
    }

    /// The text typed so far.
    pub fn get_input_value(&self) -> (text: String)
        ensures
            text@ == self@.value,
    {
        string_of(&self.input_value)
    }

    /// A prompt that starts out holding `start_string`, cursor at the end.
    pub fn new(start_string: String) -> (input: Self)
        ensures
            input@ == UserInputView::seeded(start_string@),
            input.wf(),
    {
        let new_value = chars_of(start_string.as_str());
        let new_index = new_value.len();
        Self { input_value: new_value, input_index: new_index }
    }

    /// Types `new_char` at the cursor.
    pub fn enter_char(&mut self, new_char: char)
        requires
            old(self).wf(),
        ensures
            final(self)@ == old(self)@.typed(new_char),
            final(self).wf(),
    {
        self.input_value.insert(self.input_index, new_char);
        assert(self.input_index < self.input_value.len());
        self.input_index += 1;
    }

    /// Deletes the character in front of the cursor, if there is one.
    pub fn delete_char(&mut self)
        requires
            old(self).wf(),
        ensures
            final(self)@ == old(self)@.erased(),
            final(self).wf(),
    {
        if self.input_index != 0 {
            self.input_index -= 1;
            self.input_value.remove(self.input_index);
        }
    }
}

} // verus!
