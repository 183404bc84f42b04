//! The line of text that the content screen edits.

use tui_input::{Input, InputRequest};
use vstd::prelude::*;

verus! {

/// What a key press asks of a line of text.
#[derive(Debug, Copy, Clone, PartialEq, Eq, Structural)]
pub enum EditRequest {
    InsertChar(char),
    GoToPrevChar,
    GoToNextChar,
    GoToPrevWord,
    GoToNextWord,
    GoToStart,
    GoToEnd,
    DeletePrevChar,
    DeleteNextChar,
    DeletePrevWord,
    DeleteNextWord,
    DeleteLine,
    DeleteTillEnd,
}

/// The text and the cursor that `tui_input` leaves when a line with the text
/// `value` and the cursor before the character `cursor` gets `request`.
pub uninterp spec fn edited(value: Seq<char>, cursor: nat, request: EditRequest) -> (
    Seq<char>,
    nat,
);

/// `tui_input::Input::handle`, on a line made with `Input::new` and
/// `with_cursor`: the text and the cursor afterwards are those that
/// `edited` names. Nothing else is claimed of them.
#[verifier::external_body]
fn handle_request(value: &str, cursor: usize, request: EditRequest) -> (r: (String, usize))
    ensures
        (r.0@, r.1 as nat) == edited(value@, cursor as nat, request),
{
    let mut input = Input::new(value.to_string()).with_cursor(cursor);
    input.handle(match request {
        EditRequest::InsertChar(c) => InputRequest::InsertChar(c),
        EditRequest::GoToPrevChar => InputRequest::GoToPrevChar, EditRequest::GoToNextChar => InputRequest::GoToNextChar,
        EditRequest::GoToPrevWord => InputRequest::GoToPrevWord, EditRequest::GoToNextWord => InputRequest::GoToNextWord,
        EditRequest::GoToStart => InputRequest::GoToStart, EditRequest::GoToEnd => InputRequest::GoToEnd,
        EditRequest::DeletePrevChar => InputRequest::DeletePrevChar, EditRequest::DeleteNextChar => InputRequest::DeleteNextChar,
        EditRequest::DeletePrevWord => InputRequest::DeletePrevWord, EditRequest::DeleteNextWord => InputRequest::DeleteNextWord,
        EditRequest::DeleteLine => InputRequest::DeleteLine, EditRequest::DeleteTillEnd => InputRequest::DeleteTillEnd,
    });
    (input.value().to_string(), input.cursor())
}

/// A line of text with a cursor, which stands before the character of that
/// index.
#[derive(Debug)]
pub struct InputLine {
    pub value: String,
    pub cursor: usize,
}

impl View for InputLine {
    type V = (Seq<char>, nat);

    open spec fn view(&self) -> (Seq<char>, nat) {
        (self.value@, self.cursor as nat)
    }
}

impl InputLine {
    /// An empty line.
    pub fn new() -> (line: InputLine)
        ensures
            line@ == (Seq::<char>::empty(), 0nat),
    {
        InputLine { value: String::new(), cursor: 0 }
    }

    /// The text of the line.
    pub fn value(&self) -> (s: &str)
        ensures
            s@ == self@.0,
    {
        self.value.as_str()
    }

    /// The position of the cursor.
    pub fn cursor(&self) -> (c: usize)
        ensures
            c as nat == self@.1,
    {
        self.cursor
    }

    /// Puts `value` and `cursor` in place of the text and the cursor.
    pub fn replace(&mut self, value: String, cursor: usize)
        ensures
            final(self)@ == (value@, cursor as nat),
    {
        self.value = value;
        self.cursor = cursor;
    }

    /// Lets the line editor carry out `request` on the line.
    pub fn handle(&mut self, request: EditRequest)
        ensures
            final(self)@ == edited(old(self)@.0, old(self)@.1, request),
    {
        let (value, cursor) = handle_request(self.value.as_str(), self.cursor, request);
        self.replace(value, cursor);
    }
}

} // verus!
