//! What a user can do to an editor, as plain values, and how it reaches a
//! buffer.
//!
//! The actions are the toolkit's, opened up as far as they bring text: an
//! edit says which character or which text it brings, so that what cannot
//! be held by a buffer is caught before the buffer sees it.

use crate::characters::clean;
use crate::characters::holdable;
use crate::characters::is_clean;
use crate::characters::is_holdable;
use crate::characters::lemma_rewritten_can_be_held;
use crate::characters::lemma_rewritten_keeps_what_can_be_held;
use crate::characters::rewrite;
use crate::characters::rewritten;
use iced::widget::text_editor::Motion;
use iced::Point;
use vstd::prelude::*;

verus! {

/// An interaction that changes the text.
#[derive(Debug, PartialEq)]
pub enum Edit {
    /// Insert the given character.
    Insert(char),
    /// Paste the given text.
    Paste(String),
    /// Break the current line.
    Enter,
    /// Delete the previous character.
    Backspace,
    /// Delete the next character.
    Delete,
}

/// An interaction with an editor.
#[derive(Debug, PartialEq)]
pub enum Action {
    /// Move the cursor.
    Move(Motion),
    /// Extend the selection by moving the cursor.
    Select(Motion),
    /// Select the word at the cursor.
    SelectWord,
    /// Select the line at the cursor.
    SelectLine,
    /// Select the whole text.
    SelectAll,
    /// Change the text.
    Edit(Edit),
    /// Click at the given position.
    Click(Point),
    /// Drag the mouse to the given position.
    Drag(Point),
    /// Scroll by the given number of lines.
    Scroll { lines: i32 },
}

impl Edit {
    /// Whether every character that the edit brings can be held by a
    /// buffer.
    pub open spec fn brings_clean(self) -> bool {
        match self {
            Edit::Insert(letter) => is_holdable(letter),
            Edit::Paste(text) => clean(text@),
            _ => true,
        }
    }

    /// Whether `admitted` is the edit as it reaches a buffer. An inserted
    /// character that cannot be held is not inserted, so nothing reaches
    /// the buffer. A pasted text is pasted without its carriage returns and
    /// with a line feed for each stray separator. Every other edit reaches
    /// the buffer as it is.
    pub open spec fn admits(self, admitted: Option<Edit>) -> bool {
        match self {
            Edit::Insert(letter) => admitted == if is_holdable(letter) {
                Some(self)
            } else {
                None
            },
            Edit::Paste(text) => admitted matches Some(Edit::Paste(pasted)) && pasted@
                == rewritten(text@, false),
            _ => admitted == Some(self),
        }
    }

    /// Makes the edit fit for a buffer, as [`Edit::admits`] says.
    pub fn fitted(self) -> (admitted: Option<Edit>)
        ensures
            self.admits(admitted),
            admitted matches Some(edit) ==> edit.brings_clean(),
    {
        match self {
            Edit::Insert(letter) => {
                if holdable(letter) {
                    Some(Edit::Insert(letter))
                } else {
                    None
                }
            },
            Edit::Paste(text) => {
                if is_clean(text.as_str()) {
                    proof {
                        lemma_rewritten_keeps_what_can_be_held(text@, false);
                    }
                    Some(Edit::Paste(text))
                } else {
                    proof {
                        lemma_rewritten_can_be_held(text@, false);
                    }
                    Some(Edit::Paste(rewrite(text.as_str(), false)))
                }
            },
            Edit::Enter => Some(Edit::Enter),
            Edit::Backspace => Some(Edit::Backspace),
            Edit::Delete => Some(Edit::Delete),
        }
    }
}

impl Clone for Edit {
    fn clone(&self) -> (copy: Self)
        ensures
            copy == *self,
    {
        match self {
            Edit::Insert(letter) => Edit::Insert(*letter),
            Edit::Paste(text) => Edit::Paste(text.clone()),
            Edit::Enter => Edit::Enter,
            Edit::Backspace => Edit::Backspace,
            Edit::Delete => Edit::Delete,
        }
    }
}

impl Clone for Action {
    fn clone(&self) -> (copy: Self)
        ensures
            copy == *self,
    {
        match self {
            Action::Move(motion) => Action::Move(*motion),
            Action::Select(motion) => Action::Select(*motion),
            Action::SelectWord => Action::SelectWord,
            Action::SelectLine => Action::SelectLine,
            Action::SelectAll => Action::SelectAll,
            Action::Edit(edit) => Action::Edit(edit.clone()),
            Action::Click(point) => Action::Click(*point),
            Action::Drag(point) => Action::Drag(*point),
            Action::Scroll { lines } => Action::Scroll { lines: *lines },
        }
    }
}

impl Action {
    /// Whether the action reaches no buffer: it would insert a character
    /// that a buffer cannot hold.
    pub open spec fn is_refused(self) -> bool {
        self matches Action::Edit(Edit::Insert(letter)) && !is_holdable(letter)
    }

    /// Whether `admitted` is the action as it reaches a buffer: an edit as
    /// [`Edit::admits`] says, every other action as it is.
    pub open spec fn admits(self, admitted: Option<Action>) -> bool {
        match self {
            Action::Edit(edit) => match admitted {
                Some(Action::Edit(fitted)) => edit.admits(Some(fitted)),
                Some(_) => false,
                None => edit.admits(None),
            },
            _ => admitted == Some(self),
        }
    }

    /// Whether a buffer can take the action: an edit in it brings only what
    /// can be held.
    pub open spec fn brings_clean(self) -> bool {
        self matches Action::Edit(edit) ==> edit.brings_clean()
    }

    /// Makes the action fit for a buffer, as [`Action::admits`] says. The
    /// result is `None` exactly where the action is refused.
    pub fn fitted(self) -> (admitted: Option<Action>)
        ensures
            self.admits(admitted),
            admitted is None <==> self.is_refused(),
            admitted matches Some(action) ==> action.brings_clean(),
    {
        match self {
            Action::Edit(edit) => {
                match edit.fitted() {
                    Some(fitted) => Some(Action::Edit(fitted)),
                    None => None,
                }
            },
            other => Some(other),
        }
    }
}

} // verus!
