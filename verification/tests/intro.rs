use tale_rpg::input::Key;
use tale_rpg::intro::Intro;
use tale_rpg::intro::AUTO_ADVANCE_MICROS;

fn three_lines() -> Intro {
    Intro::new(vec!["one".to_string(), "two".to_string(), "three".to_string()])
}

#[test]
fn new_intro_starts_on_its_first_line() {
    let intro = three_lines();
    assert_eq!(intro.index, 0);
    assert_eq!(intro.timer, 0);
    assert_eq!(intro.auto_advance_micros, 4_000_000);
    assert_eq!(AUTO_ADVANCE_MICROS, 4_000_000);
    assert_eq!(intro.lines.len(), 3);
    assert_eq!(intro.shown_line(), 0);
}

#[test]
fn line_gives_way_after_four_seconds() {
    let mut intro = three_lines();
    assert!(!intro.update(3_999_999));
    assert_eq!((intro.index, intro.timer), (0, 3_999_999));
    assert!(!intro.update(1));
    assert_eq!((intro.index, intro.timer), (1, 0));
    assert!(!intro.update(2_000_000));
    assert!(!intro.update(1_999_999));
    assert_eq!((intro.index, intro.timer), (1, 3_999_999));
    assert!(!intro.update(500_000));
    assert_eq!((intro.index, intro.timer), (2, 0));
    assert!(intro.update(4_000_000));
    assert_eq!((intro.index, intro.timer), (3, 0));
}

#[test]
fn long_tick_advances_one_line_only() {
    let mut intro = three_lines();
    assert!(!intro.update(u64::MAX));
    assert_eq!((intro.index, intro.timer), (1, 0));
    intro.timer = u64::MAX;
    assert!(!intro.update(u64::MAX));
    assert_eq!((intro.index, intro.timer), (2, 0));
}

#[test]
fn z_goes_to_the_next_line() {
    let mut intro = three_lines();
    intro.update(1_000_000);
    assert!(!intro.handle_input(Key::Z));
    assert_eq!((intro.index, intro.timer), (1, 0));
    intro.update(1_000_000);
    for key in [Key::Return, Key::Space, Key::X, Key::Escape, Key::Left, Key::Other] {
        assert!(!intro.handle_input(key));
        assert_eq!((intro.index, intro.timer), (1, 1_000_000));
    }
    assert!(!intro.handle_input(Key::Z));
    assert_eq!(intro.index, 2);
    assert!(intro.handle_input(Key::Z));
    assert_eq!(intro.index, 3);
}

#[test]
fn intro_without_lines_ends_at_once() {
    let mut intro = Intro::new(Vec::new());
    assert!(intro.handle_input(Key::Z));
    let mut intro = Intro::new(Vec::new());
    assert!(!intro.update(1));
    assert!(intro.update(AUTO_ADVANCE_MICROS));
}

#[test]
fn shown_line_stops_at_the_last() {
    let mut intro = three_lines();
    intro.index = 2;
    assert_eq!(intro.shown_line(), 2);
    intro.index = 3;
    assert_eq!(intro.shown_line(), 2);
    intro.index = usize::MAX - 1;
    assert_eq!(intro.shown_line(), 2);
}

#[test]
fn restart_goes_back_to_the_first_line() {
    let mut intro = three_lines();
    intro.handle_input(Key::Z);
    intro.update(5);
    intro.restart();
    assert_eq!((intro.index, intro.timer), (0, 0));
    assert_eq!(intro.lines.len(), 3);
}
