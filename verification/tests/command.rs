use diary::command::{whitespace, UserOptions};
use diary::terminal::Terminal;

fn choice(line: &str) -> UserOptions {
    Terminal::new().user_chosen_option(line)
}

fn choice_by_trim(line: &str) -> UserOptions {
    match line.trim() {
        "1" => UserOptions::Insert,
        "2" => UserOptions::Read,
        "3" => UserOptions::Exit,
        _ => UserOptions::Other,
    }
}

#[test]
fn whitespace_is_what_the_standard_library_says() {
    let mut code: u32 = 0;
    while code <= 0x10ffff {
        if let Some(c) = char::from_u32(code) {
            assert_eq!(whitespace(c), c.is_whitespace(), "character {:#x}", code);
        }
        code += 1;
    }
}

#[test]
fn whitespace_on_chosen_characters() {
    assert!(whitespace(' '));
    assert!(whitespace('\n'));
    assert!(whitespace('\r'));
    assert!(whitespace('\t'));
    assert!(whitespace('\u{b}'));
    assert!(whitespace('\u{c}'));
    assert!(whitespace('\u{85}'));
    assert!(whitespace('\u{a0}'));
    assert!(whitespace('\u{1680}'));
    assert!(whitespace('\u{2000}'));
    assert!(whitespace('\u{200a}'));
    assert!(whitespace('\u{2028}'));
    assert!(whitespace('\u{2029}'));
    assert!(whitespace('\u{202f}'));
    assert!(whitespace('\u{205f}'));
    assert!(whitespace('\u{3000}'));
    assert!(!whitespace('\u{8}'));
    assert!(!whitespace('\u{e}'));
    assert!(!whitespace('\u{1f}'));
    assert!(!whitespace('\u{200b}'));
    assert!(!whitespace('\u{1fff}'));
    assert!(!whitespace('\u{feff}'));
    assert!(!whitespace('1'));
    assert!(!whitespace('a'));
    assert!(!whitespace('\u{0}'));
}

#[test]
fn the_three_digits_select_their_choices() {
    assert_eq!(choice("1"), UserOptions::Insert);
    assert_eq!(choice("2"), UserOptions::Read);
    assert_eq!(choice("3"), UserOptions::Exit);
}

#[test]
fn a_typed_line_ends_with_a_line_end() {
    assert_eq!(choice("1\n"), UserOptions::Insert);
    assert_eq!(choice("2\n"), UserOptions::Read);
    assert_eq!(choice("3\n"), UserOptions::Exit);
    assert_eq!(choice("1\r\n"), UserOptions::Insert);
    assert_eq!(choice("2\r\n"), UserOptions::Read);
    assert_eq!(choice("3\r\n"), UserOptions::Exit);
}

#[test]
fn white_space_around_the_digit_is_passed_over() {
    assert_eq!(choice("   1"), UserOptions::Insert);
    assert_eq!(choice("1   "), UserOptions::Insert);
    assert_eq!(choice(" \t 2 \t \n"), UserOptions::Read);
    assert_eq!(choice("\n\n3\n\n"), UserOptions::Exit);
    assert_eq!(choice("\u{a0}1\u{3000}"), UserOptions::Insert);
    assert_eq!(choice("\u{2003}2\u{85}"), UserOptions::Read);
    assert_eq!(choice("\u{b}\u{c}3\u{2028}\u{2029}"), UserOptions::Exit);
}

#[test]
fn the_empty_line_selects_nothing() {
    assert_eq!(choice(""), UserOptions::Other);
}

#[test]
fn white_space_alone_selects_nothing() {
    assert_eq!(choice("\n"), UserOptions::Other);
    assert_eq!(choice("\r\n"), UserOptions::Other);
    assert_eq!(choice("   "), UserOptions::Other);
    assert_eq!(choice(" \t\n"), UserOptions::Other);
}

#[test]
fn other_lines_select_nothing() {
    assert_eq!(choice("9"), UserOptions::Other);
    assert_eq!(choice("9\n"), UserOptions::Other);
    assert_eq!(choice("0"), UserOptions::Other);
    assert_eq!(choice("4"), UserOptions::Other);
    assert_eq!(choice("11"), UserOptions::Other);
    assert_eq!(choice("12"), UserOptions::Other);
    assert_eq!(choice("1 1"), UserOptions::Other);
    assert_eq!(choice("1 2\n"), UserOptions::Other);
    assert_eq!(choice("3 x"), UserOptions::Other);
    assert_eq!(choice("x 3"), UserOptions::Other);
    assert_eq!(choice("1."), UserOptions::Other);
    assert_eq!(choice("-1"), UserOptions::Other);
    assert_eq!(choice("+2"), UserOptions::Other);
    assert_eq!(choice("01"), UserOptions::Other);
    assert_eq!(choice("a"), UserOptions::Other);
    assert_eq!(choice("sair"), UserOptions::Other);
    assert_eq!(choice("insert"), UserOptions::Other);
    assert_eq!(choice("\u{661}"), UserOptions::Other);
    assert_eq!(choice("\u{ff11}"), UserOptions::Other);
    assert_eq!(choice("1\u{200b}"), UserOptions::Other);
    assert_eq!(choice("\u{0}1"), UserOptions::Other);
    assert_eq!(choice("1\u{1b}"), UserOptions::Other);
}

#[test]
fn every_short_line_is_read_as_its_trimmed_text_says() {
    let letters = [' ', '\n', '\t', '\u{a0}', '\u{200b}', '0', '1', '2', '3', '9', 'a'];
    let mut lines: Vec<String> = vec![String::new()];
    let mut from = 0;
    for _ in 0..4 {
        let upto = lines.len();
        for at in from..upto {
            for letter in letters {
                let mut longer = lines[at].clone();
                longer.push(letter);
                lines.push(longer);
            }
        }
        from = upto;
    }
    assert_eq!(lines.len(), 1 + 11 + 121 + 1331 + 14641);
    let mut selected = [0usize; 4];
    for line in &lines {
        let found = choice(line);
        assert_eq!(found, choice_by_trim(line), "line {:?}", line);
        match found {
            UserOptions::Insert => selected[0] += 1,
            UserOptions::Read => selected[1] += 1,
            UserOptions::Exit => selected[2] += 1,
            UserOptions::Other => selected[3] += 1,
        }
    }
    assert_eq!(selected[0], 1 + 8 + 48 + 256);
    assert_eq!(selected[1], selected[0]);
    assert_eq!(selected[2], selected[0]);
    assert_eq!(selected[0] + selected[1] + selected[2] + selected[3], lines.len());
}

#[test]
fn the_line_is_left_as_it_was() {
    let line = String::from("  2 \n");
    let found = choice(&line);
    assert_eq!(found, UserOptions::Read);
    assert_eq!(line, "  2 \n");
}
