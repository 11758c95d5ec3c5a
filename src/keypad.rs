use vstd::prelude::*;

verus! {

/// Sixteen keys, all up.
pub open spec fn keys_up() -> Seq<u8> {
    Seq::new(16, |_i: int| 0u8)
}

/// The keypad key, 0x0 to 0xF, that a host keyboard scancode stands for, if any.
pub open spec fn scancode_key(code: u32) -> Option<usize> {
    match code {
        18 => Some(0x1usize),
        19 => Some(0x2usize),
        20 => Some(0x3usize),
        21 => Some(0xCusize),
        12 => Some(0x4usize),
        13 => Some(0x5usize),
        14 => Some(0x6usize),
        15 => Some(0xDusize),
        0 => Some(0x7usize),
        1 => Some(0x8usize),
        2 => Some(0x9usize),
        3 => Some(0xEusize),
        6 => Some(0xAusize),
        7 => Some(0x0usize),
        8 => Some(0xBusize),
        9 => Some(0xFusize),
        _ => None,
    }
}

/// The keypad key that a one-character key label stands for, if any. The
/// labels follow the same layout as the scancodes: `1234`, `qwer`, `asdf`, `zxcv`.
pub open spec fn label_key(label: Seq<char>) -> Option<usize> {
    if label.len() == 1 {
        match label[0] {
            '1' => Some(0x1usize),
            '2' => Some(0x2usize),
            '3' => Some(0x3usize),
            '4' => Some(0xCusize),
            'q' => Some(0x4usize),
            'w' => Some(0x5usize),
            'e' => Some(0x6usize),
            'r' => Some(0xDusize),
            'a' => Some(0x7usize),
            's' => Some(0x8usize),
            'd' => Some(0x9usize),
            'f' => Some(0xEusize),
            'z' => Some(0xAusize),
            'x' => Some(0x0usize),
            'c' => Some(0xBusize),
            'v' => Some(0xFusize),
            _ => None,
        }
    } else {
        None
    }
}

/// A key of the keypad, or `None` for a host key that has no keypad key.
pub struct Key(pub Option<usize>);

impl Key {
    /// The key that a host keyboard scancode stands for.
    pub fn from_scancode(value: u32) -> (k: Self)
        ensures
            k.0 == scancode_key(value),
    {
        match value {
            18 => Key(Some(0x1)),
            19 => Key(Some(0x2)),
            20 => Key(Some(0x3)),
            21 => Key(Some(0xC)),
            12 => Key(Some(0x4)),
            13 => Key(Some(0x5)),
            14 => Key(Some(0x6)),
            15 => Key(Some(0xD)),
            0 => Key(Some(0x7)),
            1 => Key(Some(0x8)),
            2 => Key(Some(0x9)),
            3 => Key(Some(0xE)),
            6 => Key(Some(0xA)),
            7 => Key(Some(0x0)),
            8 => Key(Some(0xB)),
            9 => Key(Some(0xF)),
            _ => Key(None),
        }
    }

    /// The key that a host key label stands for.
    pub fn from_label(value: &str) -> (k: Self)
        ensures
            k.0 == label_key(value@),
    {
        if value.unicode_len() != 1 {
            return Key(None);
        }
        match value.get_char(0) {
            '1' => Key(Some(0x1)),
            '2' => Key(Some(0x2)),
            '3' => Key(Some(0x3)),
            '4' => Key(Some(0xC)),
            'q' => Key(Some(0x4)),
            'w' => Key(Some(0x5)),
            'e' => Key(Some(0x6)),
            'r' => Key(Some(0xD)),
            'a' => Key(Some(0x7)),
            's' => Key(Some(0x8)),
            'd' => Key(Some(0x9)),
            'f' => Key(Some(0xE)),
            'z' => Key(Some(0xA)),
            'x' => Key(Some(0x0)),
            'c' => Key(Some(0xB)),
            'v' => Key(Some(0xF)),
            _ => Key(None),
        }
    }
}

/// Why a key event was refused.
#[derive(Debug, Clone, Copy, PartialEq, Eq, Structural)]
pub enum KeyError {
    /// The key index is above 0xF.
    InvalidKey,
}

/// The model of a keypad: the state of each key (1 down, 0 up) and the key
/// whose release a blocking key read waits for, if any.
pub struct KeypadView {
    pub keys: Seq<u8>,
    pub awaiting: Option<u8>,
}

impl KeypadView {
    /// Whether key `k` is down.
    pub open spec fn is_down(self, k: int) -> bool {
        0 <= k < 16 && self.keys[k] == 1
    }

    /// Whether key `k` is up.
    pub open spec fn is_up(self, k: int) -> bool {
        0 <= k < 16 && self.keys[k] == 0
    }

    /// The lowest key at or above `k` that is down.
    pub open spec fn first_down_from(self, k: int) -> Option<u8>
        decreases 16 - k,
    {
        if k < 0 || k >= 16 {
            None
        } else if self.keys[k] == 1 {
            Some(k as u8)
        } else {
            self.first_down_from(k + 1)
        }
    }

    /// The lowest key that is down.
    pub open spec fn first_down(self) -> Option<u8> {
        self.first_down_from(0)
    }

    /// The keypad after key `k` goes down.
    pub open spec fn pressed(self, k: int) -> KeypadView {
        KeypadView { keys: self.keys.update(k, 1), ..self }
    }

    /// The keypad after key `k` goes up.
    pub open spec fn released(self, k: int) -> KeypadView {
        KeypadView { keys: self.keys.update(k, 0), ..self }
    }
}

/// Sixteen keys, 0x0 to 0xF, and the latch of a blocking key read.
pub struct Keypad {
    pub keys: [u8; 16],
    pub awaiting_release: Option<u8>,
}

impl View for Keypad {
    type V = KeypadView;

    open spec fn view(&self) -> KeypadView {
        KeypadView { keys: self.keys@, awaiting: self.awaiting_release }
    }
}

impl Keypad {
    /// All keys up, nothing awaited.
    pub fn new() -> (k: Self)
        ensures
            k@ == (KeypadView { keys: keys_up(), awaiting: None }),
    {
        let k = Keypad { keys: [0u8; 16], awaiting_release: None };
        assert(k@.keys =~= keys_up());
        k
    }

    /// Marks `key` down. A key with no keypad key is ignored; an index above
    /// 0xF is refused and changes nothing.
    pub fn keydown(&mut self, key: Key) -> (r: Result<(), KeyError>)
        ensures
            match key.0 {
                None => r is Ok && final(self)@ == old(self)@,
                Some(k) => if k < 16 {
                    r is Ok && final(self)@ == old(self)@.pressed(k as int)
                } else {
                    r == Err::<(), KeyError>(KeyError::InvalidKey) && final(self)@ == old(self)@
                },
            },
    {
        match key.0 {
            None => Ok(()),
            Some(k) => {
                if k >= 16 {
                    return Err(KeyError::InvalidKey);
                }
                self.keys[k] = 1;
                Ok(())
            },
        }
    }

    /// Marks `key` up. A key with no keypad key is ignored; an index above
    /// 0xF is refused and changes nothing.
    pub fn keyup(&mut self, key: Key) -> (r: Result<(), KeyError>)
        ensures
            match key.0 {
                None => r is Ok && final(self)@ == old(self)@,
                Some(k) => if k < 16 {
                    r is Ok && final(self)@ == old(self)@.released(k as int)
                } else {
                    r == Err::<(), KeyError>(KeyError::InvalidKey) && final(self)@ == old(self)@
                },
            },
    {
        match key.0 {
            None => Ok(()),
            Some(k) => {
                if k >= 16 {
                    return Err(KeyError::InvalidKey);
                }
                self.keys[k] = 0;
                Ok(())
            },
        }
    }

    /// Latches `key` as the key whose release a blocking read waits for.
    pub fn await_release(&mut self, key: u8)
        ensures
            final(self)@ == (KeypadView { awaiting: Some(key), ..old(self)@ }),
    {
        self.awaiting_release = Some(key);
    }

    /// Clears the latch of a blocking read.
    pub fn process_release(&mut self)
        ensures
            final(self)@ == (KeypadView { awaiting: None, ..old(self)@ }),
    {
        self.awaiting_release = None;
    }

    /// Whether `key` is down.
    pub fn is_key_down(&self, key: u8) -> (r: bool)
        requires
            key < 16,
        ensures
            r == self@.is_down(key as int),
    {
        self.keys[key as usize] == 1
    }

    /// Whether `key` is up.
    pub fn is_key_up(&self, key: u8) -> (r: bool)
        requires
            key < 16,
        ensures
            r == self@.is_up(key as int),
    {
        self.keys[key as usize] == 0
    }
}

} // verus!
