use apikit::characters::{holdable, is_clean, is_shapeable, rewrite, stray_separator};
use apikit::interaction::{Action, Edit};
use iced::widget::text_editor::Motion;

const STRAY: [char; 5] = ['\u{1c}', '\u{1d}', '\u{1e}', '\u{85}', '\u{2029}'];

#[test]
fn the_stray_separators_are_five() {
    for letter in STRAY {
        assert!(stray_separator(letter));
        assert!(!holdable(letter));
    }
    for letter in ['a', ' ', '\n', '\r', '\t', '\u{1b}', '\u{1f}', '\u{84}', '\u{86}', '\u{2028}', '\u{202a}', '\u{5d0}'] {
        assert!(!stray_separator(letter));
    }
}

#[test]
fn a_carriage_return_cannot_be_held() {
    assert!(!holdable('\r'));
    assert!(holdable('\n'));
    assert!(holdable('\t'));
    assert!(holdable('a'));
    assert!(holdable('\u{5d0}'));
    assert!(holdable('\u{2028}'));
}

#[test]
fn a_text_without_stray_separators_is_shapeable() {
    assert!(is_shapeable(""));
    assert!(is_shapeable("plain"));
    assert!(is_shapeable("one\r\ntwo\rthree\nfour"));
    assert!(is_shapeable("\u{5d0}\u{5d1} abc"));
    for letter in STRAY {
        assert!(!is_shapeable(&format!("a{letter}b")));
        assert!(!is_shapeable(&format!("{letter}")));
        assert!(!is_shapeable(&format!("ab{letter}")));
    }
}

#[test]
fn a_clean_text_has_no_carriage_return_either() {
    assert!(is_clean(""));
    assert!(is_clean("one\ntwo"));
    assert!(!is_clean("one\r\ntwo"));
    assert!(!is_clean("\r"));
    for letter in STRAY {
        assert!(!is_clean(&format!("a{letter}")));
    }
}

#[test]
fn rewriting_for_a_new_buffer_keeps_carriage_returns() {
    assert_eq!(rewrite("", true), "");
    assert_eq!(rewrite("a\r\nb\rc", true), "a\r\nb\rc");
    assert_eq!(rewrite("a\u{2029}b\u{85}c\u{1c}d\u{1d}e\u{1e}", true), "a\nb\nc\nd\ne\n");
    assert_eq!(rewrite("\u{5d0}\r\u{2029}", true), "\u{5d0}\r\n");
}

#[test]
fn rewriting_for_an_edit_leaves_carriage_returns_out() {
    assert_eq!(rewrite("", false), "");
    assert_eq!(rewrite("a\r\nb\rc", false), "a\nbc");
    assert_eq!(rewrite("a\u{2029}b\r\u{85}", false), "a\nb\n");
    assert_eq!(rewrite("\r\r", false), "");
}

#[test]
fn what_is_rewritten_can_be_held() {
    for text in ["", "plain", "a\r\n\u{1c}b\u{2029}", "\u{85}\u{85}\r"] {
        assert!(is_shapeable(&rewrite(text, true)));
        assert!(is_clean(&rewrite(text, false)));
    }
}

#[test]
fn rewriting_keeps_what_can_be_held() {
    for text in ["", "plain", "one\ntwo\n", "\u{5d0} \t x"] {
        assert_eq!(rewrite(text, true), text);
        assert_eq!(rewrite(text, false), text);
    }
    assert_eq!(rewrite("a\rb", true), "a\rb");
}

#[test]
fn an_edit_is_made_fit_for_a_buffer() {
    assert_eq!(Edit::Insert('a').fitted(), Some(Edit::Insert('a')));
    assert_eq!(Edit::Insert('\n').fitted(), Some(Edit::Insert('\n')));
    assert_eq!(Edit::Insert('\r').fitted(), None);
    for letter in STRAY {
        assert_eq!(Edit::Insert(letter).fitted(), None);
    }
    assert_eq!(Edit::Paste("a\nb".to_string()).fitted(), Some(Edit::Paste("a\nb".to_string())));
    assert_eq!(Edit::Paste("a\r\nb\u{2029}".to_string()).fitted(), Some(Edit::Paste("a\nb\n".to_string())));
    assert_eq!(Edit::Enter.fitted(), Some(Edit::Enter));
    assert_eq!(Edit::Backspace.fitted(), Some(Edit::Backspace));
    assert_eq!(Edit::Delete.fitted(), Some(Edit::Delete));
}

#[test]
fn an_action_that_is_no_edit_is_fit_as_it_is() {
    assert_eq!(Action::Move(Motion::Left).fitted(), Some(Action::Move(Motion::Left)));
    assert_eq!(Action::Select(Motion::PageDown).fitted(), Some(Action::Select(Motion::PageDown)));
    assert_eq!(Action::SelectAll.fitted(), Some(Action::SelectAll));
    assert_eq!(Action::Scroll { lines: 3 }.fitted(), Some(Action::Scroll { lines: 3 }));
    assert_eq!(Action::Edit(Edit::Insert('\u{85}')).fitted(), None);
    assert_eq!(
        Action::Edit(Edit::Paste("x\ry".to_string())).fitted(),
        Some(Action::Edit(Edit::Paste("xy".to_string())))
    );
}
