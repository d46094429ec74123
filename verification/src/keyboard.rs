//! The sixteen-key hexadecimal keypad.
//!
//! A keypad is viewed as the sequence of its sixteen key states, `true` for a
//! key that is held down, indexed by key code.
use vstd::prelude::*;
use vstd::string::StrSliceExecFns;

verus! {

/// The number of keys.
pub const KEY_COUNT: usize = 16;

/// Whether the key with this code is held down. Codes above fifteen name no
/// key, and no key is never down.
pub open spec fn key_down(keys: Seq<bool>, key: int) -> bool {
    0 <= key < keys.len() && keys[key]
}

/// The lowest key code at or above `from` whose key is held down, if any.
pub open spec fn first_pressed_from(keys: Seq<bool>, from: int) -> Option<u8>
    decreases keys.len() - from,
{
    if from < 0 || from >= keys.len() {
        None
    } else if keys[from] {
        Some(from as u8)
    } else {
        first_pressed_from(keys, from + 1)
    }
}

/// The lowest key code whose key is held down, if any.
pub open spec fn first_pressed(keys: Seq<bool>) -> Option<u8> {
    first_pressed_from(keys, 0)
}

/// `first_pressed_from` finds a key exactly when one is down at or above
/// `from`, and the key it finds is the lowest such.
pub proof fn lemma_first_pressed_from(keys: Seq<bool>, from: int)
    requires
        0 <= from,
        keys.len() <= 256,
    ensures
        first_pressed_from(keys, from) is None <==> forall|key: int|
            from <= key < keys.len() ==> !keys[key],
        first_pressed_from(keys, from) matches Some(found) ==> from <= found < keys.len()
            && keys[found as int] && forall|key: int| from <= key < found ==> !keys[key],
    decreases keys.len() - from,
{
    if from < keys.len() && !keys[from] {
        lemma_first_pressed_from(keys, from + 1);
    }
}

/// The key of the keypad for which a key of the host's keyboard stands, by
/// the name of the host key. The four rows of the keypad, `123C`, `456D`,
/// `789E` and `A0BF`, lie on the host's rows `1234`, `QWER`, `ASDF` and
/// `ZXCV`. Any other key stands for none.
pub open spec fn key_code_of(name: Seq<char>) -> Option<u8> {
    if name == "Digit1"@ {
        Some(0x1u8)
    } else if name == "Digit2"@ {
        Some(0x2u8)
    } else if name == "Digit3"@ {
        Some(0x3u8)
    } else if name == "Digit4"@ {
        Some(0xCu8)
    } else if name == "KeyQ"@ {
        Some(0x4u8)
    } else if name == "KeyW"@ {
        Some(0x5u8)
    } else if name == "KeyE"@ {
        Some(0x6u8)
    } else if name == "KeyR"@ {
        Some(0xDu8)
    } else if name == "KeyA"@ {
        Some(0x7u8)
    } else if name == "KeyS"@ {
        Some(0x8u8)
    } else if name == "KeyD"@ {
        Some(0x9u8)
    } else if name == "KeyF"@ {
        Some(0xEu8)
    } else if name == "KeyZ"@ {
        Some(0xAu8)
    } else if name == "KeyX"@ {
        Some(0x0u8)
    } else if name == "KeyC"@ {
        Some(0xBu8)
    } else if name == "KeyV"@ {
        Some(0xFu8)
    } else {
        None
    }
}

/// Every key code that a host key stands for names a key of the keypad.
pub proof fn lemma_key_code_in_range(name: Seq<char>)
    ensures
        key_code_of(name) matches Some(code) ==> code < KEY_COUNT,
{
}

/// Whether two texts are the same, character by character.
fn same_text(left: &str, right: &str) -> (same: bool)
    ensures
        same == (left@ == right@),
{
    let length = left.unicode_len();
    if length != right.unicode_len() {
        return false;
    }
    let mut position: usize = 0;
    while position < length
        invariant
            position <= length,
            length == left@.len(),
            length == right@.len(),
            forall|k: int| 0 <= k < position ==> left@[k] == right@[k],
        decreases length - position,
    {
        if left.get_char(position) != right.get_char(position) {
            return false;
        }
        position = position + 1;
    }
    assert(left@ =~= right@);
    true
}

/// The key of the keypad for which the host key with this name stands.
pub fn key_code(name: &str) -> (code: Option<u8>)
    ensures
        code == key_code_of(name@),
{
    if same_text(name, "Digit1") {
        Some(0x1)
    } else if same_text(name, "Digit2") {
        Some(0x2)
    } else if same_text(name, "Digit3") {
        Some(0x3)
    } else if same_text(name, "Digit4") {
        Some(0xC)
    } else if same_text(name, "KeyQ") {
        Some(0x4)
    } else if same_text(name, "KeyW") {
        Some(0x5)
    } else if same_text(name, "KeyE") {
        Some(0x6)
    } else if same_text(name, "KeyR") {
        Some(0xD)
    } else if same_text(name, "KeyA") {
        Some(0x7)
    } else if same_text(name, "KeyS") {
        Some(0x8)
    } else if same_text(name, "KeyD") {
        Some(0x9)
    } else if same_text(name, "KeyF") {
        Some(0xE)
    } else if same_text(name, "KeyZ") {
        Some(0xA)
    } else if same_text(name, "KeyX") {
        Some(0x0)
    } else if same_text(name, "KeyC") {
        Some(0xB)
    } else if same_text(name, "KeyV") {
        Some(0xF)
    } else {
        None
    }
}

/// The state of the keypad at one moment.
#[derive(Copy, Clone, Debug, PartialEq, Eq)]
pub struct Keypad {
    keys: [bool; 16],
}

impl View for Keypad {
    type V = Seq<bool>;

    closed spec fn view(&self) -> Seq<bool> {
        self.keys@
    }
}

impl Keypad {
    /// A keypad with no key held down.
    pub fn new() -> (keypad: Self)
        ensures
            keypad@ == Seq::new(KEY_COUNT as nat, |key: int| false),
    {
        let keypad = Keypad { keys: [false; 16] };
        keypad
    }

    /// A keypad always has sixteen keys.
    pub proof fn lemma_key_count(&self)
        ensures
            self@.len() == KEY_COUNT,
    {
    }

    /// Records that a key went down. A code above fifteen names no key and
    /// changes nothing.
    pub fn press(&mut self, key: u8)
        ensures
            key < KEY_COUNT ==> final(self)@ == old(self)@.update(key as int, true),
            key >= KEY_COUNT ==> final(self)@ == old(self)@,
    {
        if (key as usize) < KEY_COUNT {
            self.keys[key as usize] = true;
        }
    }

    /// Records that a key came up. A code above fifteen names no key and
    /// changes nothing.
    pub fn release(&mut self, key: u8)
        ensures
            key < KEY_COUNT ==> final(self)@ == old(self)@.update(key as int, false),
            key >= KEY_COUNT ==> final(self)@ == old(self)@,
    {
        if (key as usize) < KEY_COUNT {
            self.keys[key as usize] = false;
        }
    }

    /// Records that the host key with this name went down. A host key that
    /// stands for no key of the keypad changes nothing.
    pub fn handle_keydown(&mut self, name: &str)
        ensures
            final(self)@ == match key_code_of(name@) {
                Some(code) => old(self)@.update(code as int, true),
                None => old(self)@,
            },
    {
        match key_code(name) {
            Some(code) => self.press(code),
            None => {},
        }
    }

    /// Records that the host key with this name came up. A host key that
    /// stands for no key of the keypad changes nothing.
    pub fn handle_keyup(&mut self, name: &str)
        ensures
            final(self)@ == match key_code_of(name@) {
                Some(code) => old(self)@.update(code as int, false),
                None => old(self)@,
            },
    {
        match key_code(name) {
            Some(code) => self.release(code),
            None => {},
        }
    }

    /// Whether the key with this code is held down.
    pub fn is_key_down(&self, key: u8) -> (down: bool)
        ensures
            down == key_down(self@, key as int),
    {
        (key as usize) < KEY_COUNT && self.keys[key as usize]
    }

    /// The key that is held down, the one with the lowest code if there are
    /// several.
    pub fn get_pressed_key(&self) -> (pressed: Option<u8>)
        ensures
            pressed == first_pressed(self@),
    {
        let mut key: usize = 0;
        while key < KEY_COUNT
            invariant
                key <= KEY_COUNT,
                first_pressed(self@) == first_pressed_from(self@, key as int),
            decreases KEY_COUNT - key,
        {
            if self.keys[key] {
                return Some(key as u8);
            }
            key = key + 1;
        }
        None
    }
}

} // verus!
