//! The keys of a keyboard layout, and how a key event is matched to one.
use vstd::prelude::*;

verus! {

/// A key as the windowing system reports it, or as a layout names it.
#[derive(Debug, Clone, Default)]
pub enum Key {
    /// A key with an established name ("Enter", "Backspace", "ShiftLeft", ...).
    Named(String),
    /// A key that types the given text.
    Character(String),
    /// An unidentified key.
    #[default]
    Unidentified,
}

/// Where on the keyboard a key sits.
#[derive(Debug, Clone, Copy, Default, PartialEq, Eq, Structural)]
pub enum Location {
    /// The standard group of keys on the keyboard.
    #[default]
    Standard,
    /// The left side of the keyboard.
    Left,
    /// The right side of the keyboard.
    Right,
    /// The numpad of the keyboard.
    Numpad,
}

/// The position of a key in a layout: its row, and its index in that row.
#[derive(Debug, Clone, Copy, PartialEq, Eq, Structural)]
pub struct PressedKeyCoord {
    pub row: usize,
    pub key: usize,
}

/// One key of a layout, with the labels drawn on it.
#[derive(Debug, Clone, Default)]
pub struct KeySpec {
    pub key: Key,
    pub location: Location,
    pub label1: String,
    pub label2: String,
}

/// One row of keys.
#[derive(Debug, Clone, Default)]
pub struct Row {
    pub keys: Vec<KeySpec>,
}

/// The keys of a keyboard layout, row by row.
#[derive(Debug, Clone, Default)]
pub struct Keyboard {
    pub name: String,
    pub rows: Vec<Row>,
}

/// The location a layout gives a key that names none.
pub fn default_location() -> (r: Location)
    ensures
        r == Location::Standard,
{
    Location::Standard
}

impl KeySpec {
    /// Whether a key event with `key` at `location` is this key.
    ///
    /// A named key matches only on the side the layout gives it (left or
    /// right); a character key matches on its text, wherever it sits.
    pub open spec fn matches(&self, key: Key, location: Location) -> bool {
        match key {
            Key::Named(name) => match self.key {
                Key::Named(my_name) => name@ == my_name@ && (
                    (self.location == Location::Left && location == Location::Left)
                    || (self.location == Location::Right && location == Location::Right)),
                _ => false,
            },
            Key::Character(text) => match self.key {
                Key::Character(my_text) => text@ == my_text@,
                _ => false,
            },
            Key::Unidentified => false,
        }
    }

    pub fn eq(&self, key: &Key, location: Location) -> (r: bool)
        ensures
            r == self.matches(*key, location),
    {
        match key {
            Key::Named(name) => {
                if let Key::Named(my_name) = &self.key {
                    if *name == *my_name {
                        match self.location {
                            Location::Left => {
                                return location == Location::Left;
                            },
                            Location::Right => {
                                return location == Location::Right;
                            },
                            _ => {},
                        }
                    }
                }
                false
            },
            Key::Character(text) => {
                if let Key::Character(my_text) = &self.key {
                    return *text == *my_text;
                }
                false
            },
            Key::Unidentified => false,
        }
    }
}

impl Keyboard {
    /// Whether the key at `row`, `index` of this layout matches the event.
    pub open spec fn key_at_matches(&self, row: int, index: int, key: Key, location: Location) -> bool {
        &&& 0 <= row < self.rows@.len()
        &&& 0 <= index < self.rows@[row].keys@.len()
        &&& self.rows@[row].keys@[index].matches(key, location)
    }

    /// Whether the key at `row`, `index` is the first one, row by row, that
    /// the event matches.
    pub open spec fn first_match(&self, row: int, index: int, key: Key, location: Location) -> bool {
        &&& self.key_at_matches(row, index, key, location)
        &&& forall|i2: int, j2: int|
            (i2 < row || (i2 == row && j2 < index)) ==> !self.key_at_matches(i2, j2, key, location)
    }

    /// The position of the first key, row by row, that the event matches.
    pub open spec fn locate(&self, key: Key, location: Location) -> Option<PressedKeyCoord> {
        if exists|i: int, j: int| self.first_match(i, j, key, location) {
            let (i, j) = choose|i: int, j: int| self.first_match(i, j, key, location);
            Some(PressedKeyCoord { row: i as usize, key: j as usize })
        } else {
            None
        }
    }

    /// The position of the first key, row by row, that the event matches.
    pub fn find_key(&self, key: &Key, location: Location) -> (r: Option<(usize, usize)>)
        ensures
            r == match self.locate(*key, location) {
                Some(c) => Some((c.row, c.key)),
                None => None,
            },
            r is None ==> forall|i: int, j: int| !self.key_at_matches(i, j, *key, location),
            r matches Some((i, j)) ==> {
                &&& self.key_at_matches(i as int, j as int, *key, location)
                &&& forall|i2: int, j2: int|
                    (i2 < i || (i2 == i && j2 < j)) ==> !self.key_at_matches(i2, j2, *key, location)
            },
    {
        let mut row_index: usize = 0;
        while row_index < self.rows.len()
            invariant
                row_index <= self.rows@.len(),
                forall|i: int, j: int| i < row_index ==> !self.key_at_matches(i, j, *key, location),
            decreases self.rows@.len() - row_index,
        {
            let row = &self.rows[row_index];
            let mut key_index: usize = 0;
            while key_index < row.keys.len()
                invariant
                    row_index < self.rows@.len(),
                    *row == self.rows@[row_index as int],
                    key_index <= row.keys@.len(),
                    forall|i: int, j: int| i < row_index ==> !self.key_at_matches(i, j, *key, location),
                    forall|j: int| j < key_index ==> !self.key_at_matches(row_index as int, j, *key, location),
                decreases row.keys@.len() - key_index,
            {
                if row.keys[key_index].eq(key, location) {
                    proof {
                        let (i, j) = choose|i: int, j: int| self.first_match(i, j, *key, location);
                        assert(self.first_match(row_index as int, key_index as int, *key, location));
                        assert(i == row_index && j == key_index) by {
                            if i < row_index || (i == row_index && j < key_index) {
                            } else if i > row_index || (i == row_index && j > key_index) {
                            }
                        }
                    }
                    return Some((row_index, key_index));
                }
                key_index += 1;
            }
            row_index += 1;
        }
        None
    }
}

} // verus!
