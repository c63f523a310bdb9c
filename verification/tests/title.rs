use tale_rpg::input::Key;
use tale_rpg::title::TitleScreen;

#[test]
fn new_title_has_the_plain_layout() {
    let t = TitleScreen::new("Hello".to_string(), "world".to_string());
    assert_eq!(t.title, "Hello");
    assert_eq!(t.subtitle, "world");
    assert_eq!(t.title_scale, 48);
    assert_eq!(t.subtitle_scale, 24);
    assert_eq!(t.title_offset, (-200, -40));
    assert_eq!(t.subtitle_offset, (-100, 10));
}

#[test]
fn default_title_is_large() {
    let t = TitleScreen::default();
    assert_eq!(t.title, "TALE");
    assert_eq!(t.subtitle, "A war on life itself");
    assert_eq!(t.title_scale, 96);
    assert_eq!(t.subtitle_scale, 20);
    assert_eq!(t.title_offset, (-120, -80));
    assert_eq!(t.subtitle_offset, (-110, 40));
}

#[test]
fn return_and_space_start_the_game() {
    let t = TitleScreen::default();
    assert!(t.handle_input(Key::Return));
    assert!(t.handle_input(Key::Space));
    for key in [Key::Z, Key::X, Key::C, Key::Escape, Key::Left, Key::A, Key::Other] {
        assert!(!t.handle_input(key));
    }
}

fn words(text: &str) -> (String, String) {
    let t = TitleScreen::from_text(text);
    assert_eq!(t.title_scale, 48);
    assert_eq!(t.subtitle_scale, 24);
    assert_eq!(t.title_offset, (-200, -40));
    assert_eq!(t.subtitle_offset, (-100, 10));
    (t.title, t.subtitle)
}

fn pair(a: &str, b: &str) -> (String, String) {
    (a.to_string(), b.to_string())
}

#[test]
fn title_text_gives_title_and_subtitle() {
    assert_eq!(words("TALE\nA war on life itself\n"), pair("TALE", "A war on life itself"));
    assert_eq!(words("TALE\nA war on life itself"), pair("TALE", "A war on life itself"));
    assert_eq!(words("one\ntwo\nthree\nfour"), pair("one", "two"));
}

#[test]
fn title_text_is_trimmed_and_empty_lines_are_passed_over() {
    assert_eq!(words("\n\n  Hello  \r\n\t\n World \n more"), pair("Hello", "World"));
    assert_eq!(words("   \n \t \n\nx y\n\n\n   z   "), pair("x y", "z"));
    assert_eq!(words(" a  b "), pair("a  b", ""));
}

#[test]
fn title_text_with_less_than_two_entries() {
    assert_eq!(words(""), pair("", ""));
    assert_eq!(words("\n"), pair("", ""));
    assert_eq!(words("  \n \r\n\t"), pair("", ""));
    assert_eq!(words("only"), pair("only", ""));
    assert_eq!(words("\n\nonly\n\n"), pair("only", ""));
}

#[test]
fn title_text_line_endings() {
    assert_eq!(words("a\r\nb\r\n"), pair("a", "b"));
    // a carriage return inside a line stays
    assert_eq!(words("a\rb\nc"), pair("a\rb", "c"));
    // one at the very end is white space like any other
    assert_eq!(words("x\r"), pair("x", ""));
    assert_eq!(words("x\r\r\ny"), pair("x", "y"));
}

#[test]
fn title_text_knows_white_space_beyond_ascii() {
    assert_eq!(words("\u{a0}Title\u{2003}\n\u{3000}\nSub\u{2028}"), pair("Title", "Sub"));
    assert_eq!(words("  Ünïcödé  \n 越 "), pair("Ünïcödé", "越"));
    // a letter is no white space, and neither is a zero-width joiner
    assert_eq!(words("\u{200d}\nb"), pair("\u{200d}", "b"));
}
