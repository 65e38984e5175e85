//! The hexadecimal keypad: which keys are held now and which were held at
//! the previous frame.
use vstd::prelude::*;

use crate::KEY_COUNT;

verus! {

/// Index on the keypad of the key that a host key, named by its character,
/// stands for, laid out as the 4x4 block `1234 / QWER / ASDF / ZXCV`.
pub open spec fn keypad_spec(c: char) -> Option<usize> {
    match c {
        '1' => Some(0x1usize),
        '2' => Some(0x2usize),
        '3' => Some(0x3usize),
        '4' => Some(0xCusize),
        'q' | 'Q' => Some(0x4usize),
        'w' | 'W' => Some(0x5usize),
        'e' | 'E' => Some(0x6usize),
        'r' | 'R' => Some(0xDusize),
        'a' | 'A' => Some(0x7usize),
        's' | 'S' => Some(0x8usize),
        'd' | 'D' => Some(0x9usize),
        'f' | 'F' => Some(0xEusize),
        'z' | 'Z' => Some(0xAusize),
        'x' | 'X' => Some(0x0usize),
        'c' | 'C' => Some(0xBusize),
        'v' | 'V' => Some(0xFusize),
        _ => None,
    }
}

/// Keypad index of the host key named `c`, if it is one of the sixteen.
pub fn keypad_index(c: char) -> (r: Option<usize>)
    ensures
        r == keypad_spec(c),
{
    match c {
        '1' => Some(0x1),
        '2' => Some(0x2),
        '3' => Some(0x3),
        '4' => Some(0xC),
        'q' | 'Q' => Some(0x4),
        'w' | 'W' => Some(0x5),
        'e' | 'E' => Some(0x6),
        'r' | 'R' => Some(0xD),
        'a' | 'A' => Some(0x7),
        's' | 'S' => Some(0x8),
        'd' | 'D' => Some(0x9),
        'f' | 'F' => Some(0xE),
        'z' | 'Z' => Some(0xA),
        'x' | 'X' => Some(0x0),
        'c' | 'C' => Some(0xB),
        'v' | 'V' => Some(0xF),
        _ => None,
    }
}

/// Some name in `keys` stands for keypad key `k`.
pub open spec fn names_key(keys: Seq<char>, k: int) -> bool {
    exists|j: int| 0 <= j < keys.len() && #[trigger] keypad_spec(keys[j]) == Some(k as usize)
}

proof fn lemma_names_key_push(keys: Seq<char>, j: int, k: int)
    requires
        0 <= j < keys.len(),
        0 <= k < 16,
    ensures
        names_key(keys.take(j + 1), k) == (names_key(keys.take(j), k) || keypad_spec(keys[j]) == Some(
            k as usize,
        )),
{
    let a = keys.take(j);
    let b = keys.take(j + 1);
    if names_key(b, k) {
        let i = choose|i: int| 0 <= i < b.len() && #[trigger] keypad_spec(b[i]) == Some(k as usize);
        if i < j {
            assert(keypad_spec(a[i]) == Some(k as usize));
        }
    }
    if names_key(a, k) {
        let i = choose|i: int| 0 <= i < a.len() && #[trigger] keypad_spec(a[i]) == Some(k as usize);
        assert(keypad_spec(b[i]) == Some(k as usize));
    }
    if keypad_spec(keys[j]) == Some(k as usize) {
        assert(keypad_spec(b[j]) == Some(k as usize));
    }
}

/// Key state of the keypad: `state` holds the keys pressed now,
/// `last_state` those pressed at the previous frame.
#[derive(Clone, Copy)]
pub struct Keyboard {
    pub state: [bool; 16],
    pub last_state: [bool; 16],
}

/// Key `k` is held down now.
pub open spec fn pressed_spec(kb: Keyboard, k: int) -> bool {
    0 <= k < 16 && kb.state@[k]
}

/// Key `k` was held at the previous frame and is up now.
pub open spec fn released_spec(kb: Keyboard, k: int) -> bool {
    0 <= k < 16 && kb.last_state@[k] && !kb.state@[k]
}

impl Keyboard {
    /// A keypad with no key held, now or before.
    pub fn new() -> (kb: Keyboard)
        ensures
            forall|k: int| 0 <= k < 16 ==> !kb.state@[k] && !kb.last_state@[k],
    {
        Keyboard { state: [false; 16], last_state: [false; 16] }
    }

    /// Starts a new frame: the current state becomes the previous one.
    pub fn handle_input(&mut self)
        ensures
            final(self).last_state@ == old(self).state@,
            final(self).state@ == old(self).state@,
    {
        self.last_state = self.state;
    }

    /// Records that the host key named `c` went down.
    pub fn handle_key_down(&mut self, c: char)
        ensures
            final(self).last_state@ == old(self).last_state@,
            final(self).state@ == match keypad_spec(c) {
                Some(k) => old(self).state@.update(k as int, true),
                None => old(self).state@,
            },
    {
        match keypad_index(c) {
            Some(k) => {
                self.state[k] = true;
            },
            None => {},
        }
    }

    /// Records that the host key named `c` went up.
    pub fn handle_key_up(&mut self, c: char)
        ensures
            final(self).last_state@ == old(self).last_state@,
            final(self).state@ == match keypad_spec(c) {
                Some(k) => old(self).state@.update(k as int, false),
                None => old(self).state@,
            },
    {
        match keypad_index(c) {
            Some(k) => {
                self.state[k] = false;
            },
            None => {},
        }
    }

    /// Records that the host keys named in `keys` went down.
    pub fn keys_pressed(&mut self, keys: &[char])
        ensures
            final(self).last_state@ == old(self).last_state@,
            forall|k: int|
                0 <= k < 16 ==> #[trigger] final(self).state@[k] == (old(self).state@[k] || names_key(keys@, k)),
    {
        let mut j: usize = 0;
        while j < keys.len()
            invariant
                j <= keys@.len(),
                self.last_state@ == old(self).last_state@,
                forall|k: int|
                    0 <= k < 16 ==> #[trigger] self.state@[k] == (old(self).state@[k] || names_key(
                        keys@.take(j as int),
                        k,
                    )),
            decreases keys.len() - j,
        {
            self.handle_key_down(keys[j]);
            proof {
                assert forall|k: int| 0 <= k < 16 implies #[trigger] self.state@[k] == (old(self).state@[k]
                    || names_key(keys@.take(j + 1), k)) by {
                    lemma_names_key_push(keys@, j as int, k);
                }
            }
            j = j + 1;
        }
        assert(keys@.take(keys@.len() as int) =~= keys@);
    }

    /// Records that the host keys named in `keys` went up.
    pub fn keys_released(&mut self, keys: &[char])
        ensures
            final(self).last_state@ == old(self).last_state@,
            forall|k: int|
                0 <= k < 16 ==> #[trigger] final(self).state@[k] == (old(self).state@[k] && !names_key(keys@, k)),
    {
        let mut j: usize = 0;
        while j < keys.len()
            invariant
                j <= keys@.len(),
                self.last_state@ == old(self).last_state@,
                forall|k: int|
                    0 <= k < 16 ==> #[trigger] self.state@[k] == (old(self).state@[k] && !names_key(
                        keys@.take(j as int),
                        k,
                    )),
            decreases keys.len() - j,
        {
            self.handle_key_up(keys[j]);
            proof {
                assert forall|k: int| 0 <= k < 16 implies #[trigger] self.state@[k] == (old(self).state@[k]
                    && !names_key(keys@.take(j + 1), k)) by {
                    lemma_names_key_push(keys@, j as int, k);
                }
            }
            j = j + 1;
        }
        assert(keys@.take(keys@.len() as int) =~= keys@);
    }

    /// Key `key` is held down now; an index past the keypad is never held.
    pub fn is_pressed(&self, key: usize) -> (r: bool)
        ensures
            r == pressed_spec(*self, key as int),
    {
        key < KEY_COUNT && self.state[key]
    }

    /// Key `key` was held at the previous frame and is up now.
    pub fn has_been_released(&self, key: usize) -> (r: bool)
        ensures
            r == released_spec(*self, key as int),
    {
        key < KEY_COUNT && self.last_state[key] && !self.state[key]
    }
}

} // verus!
