use vstd::prelude::*;

verus! {

/// The characters of the sixteen keys, in the order of their values.
pub const HEX_KEYS: [char; 16] = [
    '0', '1', '2', '3', '4', '5', '6', '7', '8', '9', 'a', 'b', 'c', 'd', 'e', 'f',
];

/// The value of the key that `key` names: a decimal digit stands for
/// itself, `a` to `f` for ten to fifteen, anything else for no key.
pub open spec fn hex_value(key: char) -> Option<u16> {
    let code: u32 = key as u32;
    if 48 <= code <= 57 {
        Some((code - 48) as u16)
    } else if 97 <= code <= 102 {
        Some((code - 87) as u16)
    } else {
        None
    }
}

/// Each of the sixteen key characters names the key whose value is its
/// place in `HEX_KEYS`.
pub proof fn lemma_hex_keys_in_order(value: u16)
    requires
        value < 16,
    ensures
        hex_value(HEX_KEYS@[value as int]) == Some(value),
{
}

/// Whether the bit of key `value` is set in `keys`.
pub open spec fn held(keys: u16, value: u16) -> bool {
    (keys >> value) & 1 == 1
}

/// The keypad: which of the sixteen keys are held. Bit `i` of the mask is
/// set exactly when the key with value `i` is held.
#[derive(Clone, Copy, Debug)]
pub struct Keyboard {
    pub keys: u16,
}

impl Keyboard {
    /// A keypad with no key held.
    pub fn new() -> (keyboard: Self)
        ensures
            keyboard.keys == 0,
    {
        Self { keys: 0 }
    }

    /// Records that `key` went down (`pressed`) or up. A character that
    /// names no key changes nothing. Returns the new mask when a key went
    /// down, for the caller to announce, and nothing otherwise.
    pub fn change_key_state(&mut self, key: char, pressed: bool) -> (announce: Option<u16>)
        ensures
            hex_value(key) is None ==> final(self).keys == old(self).keys && announce is None,
            hex_value(key) matches Some(value) ==> {
                &&& value < 16
                &&& final(self).keys == if pressed {
                    old(self).keys | (1u16 << value)
                } else {
                    old(self).keys & !(1u16 << value)
                }
                &&& held(final(self).keys, value) == pressed
                &&& forall|other: u16| other < 16 && other != value ==> #[trigger] held(final(self).keys, other)
                    == held(old(self).keys, other)
                &&& announce == if pressed { Some(final(self).keys) } else { None::<u16> }
            },
    {
        let code: u32 = key as u32;
        let value: u16;
        if 48 <= code && code <= 57 {
            value = (code - 48) as u16;
        } else if 97 <= code && code <= 102 {
            value = (code - 87) as u16;
        } else {
            return None;
        }
        let before: u16 = self.keys;
        let mask: u16 = 1u16 << value;
        if pressed {
            self.keys = before | mask;
        } else {
            self.keys = before & !mask;
        }
        proof {
            let after: u16 = self.keys;
            assert(((before | (1u16 << value)) >> value) & 1 == 1) by (bit_vector)
                requires
                    value < 16,
            ;
            assert(((before & !(1u16 << value)) >> value) & 1 == 0) by (bit_vector)
                requires
                    value < 16,
            ;
            assert forall|other: u16| other < 16 && other != value implies #[trigger] held(after, other) == held(
                before,
                other,
            ) by {
                assert(((before | (1u16 << value)) >> other) & 1 == (before >> other) & 1) by (bit_vector)
                    requires
                        value < 16,
                        other < 16,
                        other != value,
                ;
                assert(((before & !(1u16 << value)) >> other) & 1 == (before >> other) & 1) by (bit_vector)
                    requires
                        value < 16,
                        other < 16,
                        other != value,
                ;
            }
        }
        if pressed {
            Some(self.keys)
        } else {
            None
        }
    }
}

/// Whether key `value` is held in `after` and was not in `before`.
pub open spec fn went_down(before: u16, after: u16, value: u16) -> bool {
    held(after, value) && !held(before, value)
}

/// The key that went down between two masks: the one with the lowest value
/// if there are several, none if no key went down.
pub fn newly_pressed(before: u16, after: u16) -> (key: Option<u8>)
    ensures
        key matches Some(value) ==> value < 16 && went_down(before, after, value as u16) && forall|
            lower: u16,
        |
            lower < value ==> !#[trigger] went_down(before, after, lower),
        key is None ==> forall|value: u16| value < 16 ==> !#[trigger] went_down(before, after, value),
{
    let mut value: u16 = 0;
    while value < 16
        invariant
            value <= 16,
            forall|lower: u16| lower < value ==> !#[trigger] went_down(before, after, lower),
        decreases 16 - value,
    {
        if (after >> value) & 1 == 1 && (before >> value) & 1 != 1 {
            return Some(value as u8);
        }
        value += 1;
    }
    None
}

} // verus!
