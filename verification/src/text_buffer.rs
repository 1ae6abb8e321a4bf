//! The text buffers of the request and response editors.
//!
//! A buffer is an `iced` editor content. Its cursor, selection and layout
//! are the toolkit's business; the state machine only creates buffers,
//! replaces them, forwards interactions to them and reads their text.
//! Nothing in this file is proved: each contract below says what the
//! toolkit's function of that name does, and the rest of the library is
//! verified against these contracts.
//!
//! The toolkit lays each line of a buffer out as one paragraph and stops
//! the program where a line turns out to be several paragraphs of different
//! directions. What keeps a line one paragraph is stated here as `requires`:
//! no stray separator in a text that a buffer is made from, and no
//! character that cannot be held in what an edit brings.

use crate::characters::clean;
use crate::characters::shapeable;
use crate::interaction::Action;
use crate::interaction::Edit;
use iced::widget::text_editor;
use std::sync::Arc;
use vstd::prelude::*;

verus! {

/// `iced::widget::text_editor::Motion`: a movement of the cursor. Carried
/// through without being inspected.
#[verifier::external_type_specification]
#[verifier::external_body]
pub struct ExMotion(text_editor::Motion);

/// `iced::Point`: a position in a widget. Carried through without being
/// inspected.
#[verifier::external_type_specification]
#[verifier::external_body]
#[verifier::reject_recursive_types(T)]
pub struct ExPoint<T>(iced::Point<T>);

/// An editor buffer: an `iced::widget::text_editor::Content`, which the
/// verifier cannot look into. The field is public so that the rendering
/// layer can bind an editor widget to it.
#[verifier::external_body]
pub struct TextBuffer {
    pub content: text_editor::Content,
}

/// The text that a buffer holds, as `Content::text` reports it.
pub uninterp spec fn buffer_text(buffer: TextBuffer) -> Seq<char>;

/// The text that a buffer reports right after `Content::with_text` made it
/// from `text`. The toolkit keeps a text as lines: it cuts `text` at its
/// line endings, of whichever kind, and reports the lines joined by `'\n'`,
/// with one more `'\n'` behind them unless what is joined ends in one
/// already. So this is `text` itself only up to its line endings, and a
/// text that ends in an empty line is reported without that line.
pub uninterp spec fn laid_out(text: Seq<char>) -> Seq<char>;

impl TextBuffer {
    /// `Content::new`, which is `Content::with_text("")`: the buffer holds
    /// what a buffer made from the empty text holds, one empty line.
    #[verifier::external_body]
    pub(crate) fn new() -> (buffer: TextBuffer)
        ensures
            buffer_text(buffer) == laid_out(Seq::<char>::empty()),
            clean(buffer_text(buffer)),
    {
        TextBuffer { content: text_editor::Content::new() }
    }

    /// `Content::with_text`: the buffer holds `text` as the toolkit lays it
    /// out, whatever any earlier buffer held. The toolkit cuts `text` at
    /// its carriage returns and line feeds, so the lines hold neither, and
    /// they hold no stray separator because `text` has none.
    #[verifier::external_body]
    pub(crate) fn with_text(text: &str) -> (buffer: TextBuffer)
        requires
            shapeable(text@),
        ensures
            buffer_text(buffer) == laid_out(text@),
            clean(buffer_text(buffer)),
    {
        TextBuffer { content: text_editor::Content::with_text(text) }
    }

    /// `Content::perform` with an edit. What the buffer holds afterwards
    /// depends on its cursor and selection, so of its text only this is
    /// claimed: an edit takes characters away or puts in those that it
    /// brings, line feeds as breaks between lines, so a buffer that held
    /// only what it can hold still does.
    #[verifier::external_body]
    pub(crate) fn edit(&mut self, edit: Edit)
        requires
            clean(buffer_text(*old(self))),
            edit.brings_clean(),
        ensures
            clean(buffer_text(*final(self))),
        no_unwind
    {
        self.content.perform(text_editor::Action::Edit(match edit {
            Edit::Insert(letter) => text_editor::Edit::Insert(letter),
            Edit::Paste(text) => text_editor::Edit::Paste(Arc::new(text)),
            Edit::Enter => text_editor::Edit::Enter,
            Edit::Backspace => text_editor::Edit::Backspace,
            Edit::Delete => text_editor::Edit::Delete,
        }))
    }

    /// `Content::perform` with an interaction that is no edit: it moves the
    /// cursor, the selection or the scroll position and brings no text, so
    /// a buffer that held only what it can hold still does.
    #[verifier::external_body]
    pub(crate) fn interact(&mut self, action: Action)
        requires
            clean(buffer_text(*old(self))),
            !(action is Edit),
        ensures
            clean(buffer_text(*final(self))),
        no_unwind
    {
        self.content.perform(match action {
            Action::Move(motion) => text_editor::Action::Move(motion),
            Action::Select(motion) => text_editor::Action::Select(motion),
            Action::SelectWord => text_editor::Action::SelectWord,
            Action::SelectLine => text_editor::Action::SelectLine,
            Action::SelectAll => text_editor::Action::SelectAll,
            Action::Click(point) => text_editor::Action::Click(point),
            Action::Drag(point) => text_editor::Action::Drag(point),
            Action::Scroll { lines } => text_editor::Action::Scroll { lines },
            Action::Edit(_) => return,
        })
    }

    /// `Content::text`: the text of the buffer.
    #[verifier::external_body]
    pub(crate) fn text(&self) -> (text: String)
        ensures
            text@ == buffer_text(*self),
    {
        self.content.text()
    }
}

} // verus!
