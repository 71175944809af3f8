use watcher::text::{
    decimal_string, line_to_ansi, padding, push_decimal, push_repeated, Color, Fragment, Pad, Style,
    StyledText,
};

fn fragment(text: &str, fg: Option<Color>, bold: bool, underline: bool) -> Fragment {
    Fragment { text: text.to_string(), style: Style { fg, bold, underline } }
}

#[test]
fn plain_fragment_renders_as_its_text() {
    assert_eq!(Fragment::plain("abc").to_ansi(), "abc");
    assert_eq!(Fragment::plain("").to_ansi(), "");
}

#[test]
fn colored_fragment_sets_and_resets_the_foreground() {
    let f = fragment("a", Some(Color::Blue), false, false);
    assert_eq!(f.to_ansi(), "\u{1b}[38;5;12ma\u{1b}[39m");
    let f = fragment("level", Some(Color::Black), false, false);
    assert_eq!(f.to_ansi(), "\u{1b}[38;5;0mlevel\u{1b}[39m");
}

#[test]
fn bold_and_underline_follow_the_colour_and_end_with_a_full_reset() {
    let f = fragment("a", Some(Color::Blue), true, true);
    assert_eq!(f.to_ansi(), "\u{1b}[38;5;12m\u{1b}[1m\u{1b}[4ma\u{1b}[0m");
    let f = fragment("a", None, true, false);
    assert_eq!(f.to_ansi(), "\u{1b}[1ma\u{1b}[0m");
    let f = fragment("a", None, false, true);
    assert_eq!(f.to_ansi(), "\u{1b}[4ma\u{1b}[0m");
    let f = fragment("a", Some(Color::Cyan), true, false);
    assert_eq!(f.to_ansi(), "\u{1b}[38;5;14m\u{1b}[1ma\u{1b}[0m");
    let f = fragment("a", Some(Color::Grey), false, true);
    assert_eq!(f.to_ansi(), "\u{1b}[38;5;7m\u{1b}[4ma\u{1b}[0m");
    let f = fragment("a", None, true, true);
    assert_eq!(f.to_ansi(), "\u{1b}[1m\u{1b}[4ma\u{1b}[0m");
    let f = fragment("", Some(Color::Red), false, false);
    assert_eq!(f.to_ansi(), "\u{1b}[38;5;9m\u{1b}[39m");
}

#[test]
fn every_colour_has_its_palette_number() {
    let all = [
        Color::Black,
        Color::DarkRed,
        Color::DarkGreen,
        Color::DarkYellow,
        Color::DarkBlue,
        Color::DarkMagenta,
        Color::DarkCyan,
        Color::Grey,
        Color::DarkGrey,
        Color::Red,
        Color::Green,
        Color::Yellow,
        Color::Blue,
        Color::Magenta,
        Color::Cyan,
        Color::White,
    ];
    for (i, c) in all.iter().enumerate() {
        assert_eq!(c.index(), Some(i as u8));
        let f = fragment("x", Some(*c), false, false);
        assert_eq!(f.to_ansi(), format!("\u{1b}[38;5;{}mx\u{1b}[39m", i));
    }
}

#[test]
fn the_terminals_own_colour_is_a_reset_of_the_foreground() {
    assert_eq!(Color::Reset.index(), None);
    let f = fragment("x", Some(Color::Reset), false, false);
    assert_eq!(f.to_ansi(), "\u{1b}[39mx\u{1b}[39m");
    let f = fragment("x", Some(Color::Reset), true, true);
    assert_eq!(f.to_ansi(), "\u{1b}[39m\u{1b}[1m\u{1b}[4mx\u{1b}[0m");
}

#[test]
fn style_builders() {
    let s = Style::plain();
    assert!(s.fg.is_none() && !s.bold && !s.underline);
    let s = Style::colored(Color::Red).bold();
    assert_eq!(s.fg, Some(Color::Red));
    assert!(s.bold && !s.underline);
    let s = Style::colored(Color::Red).underlined();
    assert!(!s.bold && s.underline);
}

#[test]
fn decimal_of_numbers() {
    assert_eq!(decimal_string(0), "0");
    assert_eq!(decimal_string(7), "7");
    assert_eq!(decimal_string(10), "10");
    assert_eq!(decimal_string(69), "69");
    assert_eq!(decimal_string(1234567890), "1234567890");
    assert_eq!(decimal_string(u64::MAX), "18446744073709551615");
    let mut s = String::from("n=");
    push_decimal(&mut s, 405);
    assert_eq!(s, "n=405");
}

#[test]
fn repeated_characters() {
    let mut s = String::from("a");
    push_repeated(&mut s, '-', 3);
    assert_eq!(s, "a---");
    push_repeated(&mut s, '-', 0);
    assert_eq!(s, "a---");
}

#[test]
fn padding_left_puts_the_fill_after_the_text() {
    assert_eq!(padding("ab".to_string(), Pad::Left, 5, b' '), "ab   ");
    assert_eq!(padding("ab".to_string(), Pad::Left, 5, b'.'), "ab...");
}

#[test]
fn padding_right_puts_the_fill_before_the_text() {
    assert_eq!(padding("ab".to_string(), Pad::Right, 5, b' '), "   ab");
}

#[test]
fn padding_center_splits_the_fill() {
    // fill 4, text of even length: two on each side
    assert_eq!(padding("ab".to_string(), Pad::Center, 6, b'*'), "**ab**");
    // fill 4, text of odd length: one more after the text
    assert_eq!(padding("abc".to_string(), Pad::Center, 7, b'*'), "**abc***");
    // fill 3, text of even length: one on each side
    assert_eq!(padding("ab".to_string(), Pad::Center, 5, b'*'), "*ab*");
    // fill 1, text of odd length: nothing before, one after
    assert_eq!(padding("abc".to_string(), Pad::Center, 4, b'*'), "abc*");
}

#[test]
fn padding_leaves_long_text_alone() {
    assert_eq!(padding("abcdef".to_string(), Pad::Left, 6, b' '), "abcdef");
    assert_eq!(padding("abcdef".to_string(), Pad::Right, 3, b' '), "abcdef");
    assert_eq!(padding("abcdef".to_string(), Pad::Center, 0, b' '), "abcdef");
    assert_eq!(padding(String::new(), Pad::Left, 0, b' '), "");
    // nothing is filled, so the fill byte does not matter
    assert_eq!(padding("abcdef".to_string(), Pad::Left, 2, 0xFF), "abcdef");
}

#[test]
fn padding_counts_bytes() {
    // three characters of three bytes each
    let text = "\u{d55c}\u{ae00}\u{c774}".to_string();
    assert_eq!(text.len(), 9);
    assert_eq!(padding(text.clone(), Pad::Left, 11, b' '), format!("{}  ", text));
    assert_eq!(padding(text.clone(), Pad::Left, 9, b' '), text);
}

#[test]
fn a_line_is_the_sum_of_its_fragments() {
    let line = vec![
        fragment("a", Some(Color::Green), false, false),
        Fragment::plain("/"),
        fragment("b", Some(Color::Red), false, false),
    ];
    assert_eq!(line_to_ansi(&line), "\u{1b}[38;5;10ma\u{1b}[39m/\u{1b}[38;5;9mb\u{1b}[39m");
    assert_eq!(line_to_ansi(&Vec::new()), "");
}

#[test]
fn lines_are_joined_by_line_feeds() {
    let mut text = StyledText::new();
    assert_eq!(text.to_ansi(), "");
    text.push_line(vec![Fragment::plain("one")]);
    assert_eq!(text.to_ansi(), "one");
    text.push_line(Vec::new());
    text.push_line(vec![Fragment::plain("three")]);
    assert_eq!(text.to_ansi(), "one\n\nthree");
    let single = StyledText::styled("x", Style::plain());
    assert_eq!(single.lines.len(), 1);
    assert_eq!(single.lines[0].len(), 1);
    assert_eq!(single.lines[0][0].text, "x");
}
