use tale_rpg::input::HeldKeys;
use tale_rpg::input::Key;
use tale_rpg::units::Direction;

#[test]
fn arrows_and_letters_name_directions() {
    assert_eq!(Key::Left.as_direction(), Some(Direction::Left));
    assert_eq!(Key::A.as_direction(), Some(Direction::Left));
    assert_eq!(Key::Right.as_direction(), Some(Direction::Right));
    assert_eq!(Key::D.as_direction(), Some(Direction::Right));
    assert_eq!(Key::Up.as_direction(), Some(Direction::Up));
    assert_eq!(Key::W.as_direction(), Some(Direction::Up));
    assert_eq!(Key::Down.as_direction(), Some(Direction::Down));
    assert_eq!(Key::S.as_direction(), Some(Direction::Down));
    for key in [Key::X, Key::Z, Key::C, Key::Return, Key::Space, Key::Escape, Key::Other] {
        assert_eq!(key.as_direction(), None);
    }
}

#[test]
fn held_keys_give_one_direction_in_a_fixed_order() {
    assert_eq!(HeldKeys::none().pick(), None);
    for left in [false, true] {
        for right in [false, true] {
            for up in [false, true] {
                for down in [false, true] {
                    let expected = if left {
                        Some(Direction::Left)
                    } else if right {
                        Some(Direction::Right)
                    } else if up {
                        Some(Direction::Up)
                    } else if down {
                        Some(Direction::Down)
                    } else {
                        None
                    };
                    assert_eq!(HeldKeys { left, right, up, down }.pick(), expected);
                }
            }
        }
    }
}

#[test]
fn only_holds_one_key() {
    assert_eq!(
        HeldKeys::only(Direction::Left),
        HeldKeys { left: true, right: false, up: false, down: false }
    );
    assert_eq!(
        HeldKeys::only(Direction::Right),
        HeldKeys { left: false, right: true, up: false, down: false }
    );
    assert_eq!(
        HeldKeys::only(Direction::Up),
        HeldKeys { left: false, right: false, up: true, down: false }
    );
    assert_eq!(
        HeldKeys::only(Direction::Down),
        HeldKeys { left: false, right: false, up: false, down: true }
    );
    assert_eq!(HeldKeys::none(), HeldKeys { left: false, right: false, up: false, down: false });
}
