use chip8::keyboard::{newly_pressed, Keyboard, HEX_KEYS};

#[test]
fn new_keyboard_holds_no_key() {
    assert_eq!(Keyboard::new().keys, 0);
}

#[test]
fn press_sets_the_bit_of_the_key_and_announces_the_mask() {
    let mut keyboard = Keyboard::new();
    assert_eq!(keyboard.change_key_state('0', true), Some(0x0001));
    assert_eq!(keyboard.change_key_state('a', true), Some(0x0401));
    assert_eq!(keyboard.change_key_state('f', true), Some(0x8401));
    assert_eq!(keyboard.change_key_state('9', true), Some(0x8601));
    assert_eq!(keyboard.keys, 0x8601);
    assert_eq!(keyboard.change_key_state('a', true), Some(0x8601));
}

#[test]
fn release_clears_the_bit_and_announces_nothing() {
    let mut keyboard = Keyboard::new();
    keyboard.change_key_state('3', true);
    keyboard.change_key_state('c', true);
    assert_eq!(keyboard.change_key_state('3', false), None);
    assert_eq!(keyboard.keys, 1 << 0xC);
    assert_eq!(keyboard.change_key_state('3', false), None);
    assert_eq!(keyboard.keys, 1 << 0xC);
}

#[test]
fn other_characters_change_nothing() {
    let mut keyboard = Keyboard::new();
    keyboard.change_key_state('5', true);
    for key in ['g', 'A', 'F', ' ', '/', ':', '`', 'é'] {
        assert_eq!(keyboard.change_key_state(key, true), None);
        assert_eq!(keyboard.change_key_state(key, false), None);
        assert_eq!(keyboard.keys, 1 << 5);
    }
}

#[test]
fn every_hex_key_maps_to_its_own_bit() {
    for (value, key) in HEX_KEYS.iter().enumerate() {
        let mut keyboard = Keyboard::new();
        assert_eq!(keyboard.change_key_state(*key, true), Some(1u16 << value));
    }
}

#[test]
fn newly_pressed_finds_the_lowest_key_that_went_down() {
    assert_eq!(newly_pressed(0, 0), None);
    assert_eq!(newly_pressed(0b0110, 0b0110), None);
    assert_eq!(newly_pressed(0b0110, 0b0010), None);
    assert_eq!(newly_pressed(0b0110, 0b1110), Some(3));
    assert_eq!(newly_pressed(0b0110, 0x8111), Some(0));
    assert_eq!(newly_pressed(0x7FFF, 0xFFFF), Some(15));
}
