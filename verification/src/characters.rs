//! The characters that an editor buffer cannot hold, and what is shown in
//! their place.
//!
//! The editors keep a text as lines and lay each line out as one paragraph.
//! Unicode has paragraph separators besides the line feed and the carriage
//! return. A line that held one of them would be several paragraphs, which
//! the layout does not bear. So a text is rewritten before it reaches a
//! buffer: each such separator becomes a line feed. A buffer that is made
//! from a text takes carriage returns for line endings; an edit would put
//! them into a line, so a text that is pasted goes without them.

use vstd::prelude::*;
use vstd::std_specs::iter::IteratorSpec;

verus! {

/// Whether `c` separates paragraphs without being a line feed or a carriage
/// return: one of U+001C to U+001E, U+0085 and U+2029.
pub open spec fn is_stray_separator(c: char) -> bool {
    c == '\u{1c}' || c == '\u{1d}' || c == '\u{1e}' || c == '\u{85}' || c == '\u{2029}'
}

/// Whether a line of a buffer can hold `c`: it is neither a stray separator
/// nor a carriage return.
pub open spec fn is_holdable(c: char) -> bool {
    c != '\r' && !is_stray_separator(c)
}

/// Whether a buffer can be made from `text`: it has no stray separator.
/// Carriage returns are in order here, because a buffer that is made from a
/// text takes them for line endings.
pub open spec fn shapeable(text: Seq<char>) -> bool {
    forall|i: int| 0 <= i < text.len() ==> !is_stray_separator(#[trigger] text[i])
}

/// Whether `text` can be put into a buffer, or be in one: every character
/// of it is holdable.
pub open spec fn clean(text: Seq<char>) -> bool {
    forall|i: int| 0 <= i < text.len() ==> is_holdable(#[trigger] text[i])
}

/// `text` as it reaches a buffer: each stray separator is replaced by a
/// line feed, and each carriage return is left out unless `keep_returns`
/// says that the buffer will take it for a line ending.
pub open spec fn rewritten(text: Seq<char>, keep_returns: bool) -> Seq<char>
    decreases text.len(),
{
    if text.len() == 0 {
        Seq::empty()
    } else {
        let before = rewritten(text.drop_last(), keep_returns);
        let c = text.last();
        if is_stray_separator(c) {
            before.push('\n')
        } else if c == '\r' && !keep_returns {
            before
        } else {
            before.push(c)
        }
    }
}

/// `String::push`: appends one character to the text.
#[verifier::external_body]
fn push_char(text: &mut String, c: char)
    ensures
        final(text)@ == old(text)@.push(c),
{
    text.push(c)
}

/// Tells whether `c` is a stray separator.
pub fn stray_separator(c: char) -> (stray: bool)
    ensures
        stray == is_stray_separator(c),
{
    c == '\u{1c}' || c == '\u{1d}' || c == '\u{1e}' || c == '\u{85}' || c == '\u{2029}'
}

/// Tells whether `c` can be held by a line of a buffer.
pub fn holdable(c: char) -> (held: bool)
    ensures
        held == is_holdable(c),
{
    c != '\r' && !stray_separator(c)
}

/// Tells whether a buffer can be made from `text`.
pub fn is_shapeable(text: &str) -> (ok: bool)
    ensures
        ok == shapeable(text@),
{
    let mut chars = text.chars();
    let ghost mut seen: int = 0;
    loop
        invariant
            0 <= seen <= text@.len(),
            chars.remaining() =~= text@.skip(seen),
            forall|i: int| 0 <= i < seen ==> !is_stray_separator(#[trigger] text@[i]),
        decreases text@.len() - seen,
    {
        match chars.next() {
            Some(c) => {
                assert(c == text@[seen]);
                if stray_separator(c) {
                    return false;
                }
                proof {
                    seen = seen + 1;
                }
            },
            None => {
                return true;
            },
        }
    }
}

/// Tells whether `text` can be put into a buffer as it is.
pub fn is_clean(text: &str) -> (ok: bool)
    ensures
        ok == clean(text@),
{
    let mut chars = text.chars();
    let ghost mut seen: int = 0;
    loop
        invariant
            0 <= seen <= text@.len(),
            chars.remaining() =~= text@.skip(seen),
            forall|i: int| 0 <= i < seen ==> is_holdable(#[trigger] text@[i]),
        decreases text@.len() - seen,
    {
        match chars.next() {
            Some(c) => {
                assert(c == text@[seen]);
                if !holdable(c) {
                    return false;
                }
                proof {
                    seen = seen + 1;
                }
            },
            None => {
                return true;
            },
        }
    }
}

/// Rewrites `text` for a buffer, as [`rewritten`] says.
pub fn rewrite(text: &str, keep_returns: bool) -> (out: String)
    ensures
        out@ == rewritten(text@, keep_returns),
{
    let mut out = String::new();
    let mut chars = text.chars();
    let ghost mut seen: int = 0;
    loop
        invariant
            0 <= seen <= text@.len(),
            chars.remaining() =~= text@.skip(seen),
            out@ == rewritten(text@.take(seen), keep_returns),
        decreases text@.len() - seen,
    {
        match chars.next() {
            Some(c) => {
                proof {
                    assert(c == text@[seen]);
                    assert(text@.take(seen + 1).drop_last() =~= text@.take(seen));
                    assert(text@.take(seen + 1).last() == c);
                }
                if stray_separator(c) {
                    push_char(&mut out, '\n');
                } else if c == '\r' && !keep_returns {
                } else {
                    push_char(&mut out, c);
                }
                proof {
                    seen = seen + 1;
                }
            },
            None => {
                assert(text@.take(seen) =~= text@);
                return out;
            },
        }
    }
}

/// A rewritten text can go where it was rewritten for: a buffer can be made
/// from it, and without its carriage returns it can be put into a buffer.
pub proof fn lemma_rewritten_can_be_held(text: Seq<char>, keep_returns: bool)
    ensures
        shapeable(rewritten(text, keep_returns)),
        !keep_returns ==> clean(rewritten(text, keep_returns)),
    decreases text.len(),
{
    if text.len() > 0 {
        lemma_rewritten_can_be_held(text.drop_last(), keep_returns);
    }
}

/// Rewriting changes nothing in a text that could go where it is rewritten
/// for as it is.
pub proof fn lemma_rewritten_keeps_what_can_be_held(text: Seq<char>, keep_returns: bool)
    requires
        shapeable(text),
        keep_returns || clean(text),
    ensures
        rewritten(text, keep_returns) == text,
    decreases text.len(),
{
    if text.len() > 0 {
        lemma_rewritten_keeps_what_can_be_held(text.drop_last(), keep_returns);
        assert(text.drop_last().push(text.last()) =~= text);
    } else {
        assert(text =~= Seq::<char>::empty());
    }
}

} // verus!
