use crate::gpu::{lemma_pixel_index_bounds, on_screen, pixel_index};
use crate::platform::Platform;
use vstd::prelude::*;

verus! {

/// The keyboard keys that stand for the sixteen keys of the keypad, by key
/// code.
pub open spec fn keypad() -> Seq<char> {
    seq!['x', '1', '2', '3', 'q', 'w', 'e', 'a', 's', 'd', 'y', 'c', '4', 'r', 'f', 'v']
}

/// The keyboard key of a key code; none for a code beyond the keypad.
pub open spec fn key_char(value: u8) -> Option<char> {
    if value < 16 {
        Some(keypad()[value as int])
    } else {
        None
    }
}

/// The key code of a keyboard key; none for a key outside the keypad.
pub open spec fn char_key(value: char) -> Option<u8> {
    if keypad().contains(value) {
        Some(keypad().index_of(value) as u8)
    } else {
        None
    }
}

/// The key codes of those of `keys` that belong to the keypad, in order.
pub open spec fn keypad_codes(keys: Seq<char>) -> Seq<u8> {
    keys.filter_map(to_key_code())
}

/// [`char_key`] as a function value.
pub open spec fn to_key_code() -> spec_fn(char) -> Option<u8> {
    |key: char| char_key(key)
}

/// No keyboard key stands for two key codes.
pub proof fn lemma_keypad_distinct()
    ensures
        keypad().len() == 16,
        keypad().no_duplicates(),
{
}

/// What the machine asks of its surroundings: the state of the keypad.
///
/// The answers come from outside and may differ from one call to the next,
/// so the methods promise nothing about them.
pub trait IO {
    /// Whether the key with the given code is held down now.
    fn is_code_pressed(&self, code: u8) -> bool;

    /// The codes of the keys that went down since the last poll.
    fn get_just_pressed(&self) -> Vec<u8>;
}

pub fn key_to_char(value: u8) -> (key: Option<char>)
    ensures
        key == key_char(value),
{
    match value {
        0x0 => Some('x'),
        0x1 => Some('1'),
        0x2 => Some('2'),
        0x3 => Some('3'),
        0x4 => Some('q'),
        0x5 => Some('w'),
        0x6 => Some('e'),
        0x7 => Some('a'),
        0x8 => Some('s'),
        0x9 => Some('d'),
        0xA => Some('y'),
        0xB => Some('c'),
        0xC => Some('4'),
        0xD => Some('r'),
        0xE => Some('f'),
        0xF => Some('v'),
        _ => None,
    }
}

pub fn char_to_key(value: char) -> (code: Option<u8>)
    ensures
        code == char_key(value),
{
    let code = match value {
        'x' => Some(0x0u8),
        '1' => Some(0x1u8),
        '2' => Some(0x2u8),
        '3' => Some(0x3u8),
        'q' => Some(0x4u8),
        'w' => Some(0x5u8),
        'e' => Some(0x6u8),
        'a' => Some(0x7u8),
        's' => Some(0x8u8),
        'd' => Some(0x9u8),
        'y' => Some(0xAu8),
        'c' => Some(0xBu8),
        '4' => Some(0xCu8),
        'r' => Some(0xDu8),
        'f' => Some(0xEu8),
        'v' => Some(0xFu8),
        _ => None,
    };
    proof {
        lemma_keypad_distinct();
        match code {
            Some(k) => {
                assert(keypad()[k as int] == value);
                assert(keypad().contains(value));
                let found = keypad().index_of(value);
                assert(0 <= found < 16 && keypad()[found] == value);
                assert(found == k);
            },
            None => {
                assert(!keypad().contains(value));
            },
        }
    }
    code
}

/// A key code and its keyboard key name each other: mapping a key code of
/// the keypad to its key and back gives the code again, and a key that maps
/// to a code is the key of that code.
pub proof fn law_key_round_trip(code: u8, key: char)
    ensures
        code < 16 ==> key_char(code) is Some && char_key(key_char(code).unwrap()) == Some(code),
        char_key(key) is Some ==> char_key(key).unwrap() < 16 && key_char(char_key(key).unwrap())
            == Some(key),
{
    lemma_keypad_distinct();
    if code < 16 {
        let k = keypad()[code as int];
        assert(keypad().contains(k));
        let found = keypad().index_of(k);
        assert(0 <= found < 16 && keypad()[found] == k);
        assert(found == code);
    }
    if keypad().contains(key) {
        let found = keypad().index_of(key);
        assert(0 <= found < 16 && keypad()[found] == key);
    }
}

/// A snapshot of what a renderer shows: the program's title, the sixteen
/// registers and the pixel grid, row by row.
pub struct RenderContext<'a> {
    pub platform: Platform,
    pub title: &'a str,
    pub registries: &'a [u8; 16],
    pub pixels: &'a [bool],
}

impl<'a> RenderContext<'a> {
    /// The pixel at column `x`, row `y`; none for a place off the screen or
    /// beyond the grid that the snapshot holds.
    pub fn pixel(&self, x: usize, y: usize) -> (pixel: Option<bool>)
        ensures
            pixel == if on_screen(self.platform, x as int, y as int) && pixel_index(
                self.platform,
                x as int,
                y as int,
            ) < self.pixels@.len() {
                Some(self.pixels@[pixel_index(self.platform, x as int, y as int)])
            } else {
                None
            },
    {
        if x >= self.platform.width() || y >= self.platform.height() {
            return None;
        }
        proof {
            lemma_pixel_index_bounds(self.platform, x as int, y as int);
        }
        let place: usize = y * self.platform.width() + x;
        if place < self.pixels.len() {
            Some(self.pixels[place])
        } else {
            None
        }
    }
}

/// The test that keeps every key but `key`.
pub open spec fn other_than(key: char) -> spec_fn(char) -> bool {
    |k: char| k != key
}

/// The mathematical content of a [`WebIO`]: the keyboard keys held down, in
/// the order they went down, and those that went down since the last poll.
pub struct KeysState {
    pub pressed: Seq<char>,
    pub just_pressed: Seq<char>,
}

impl KeysState {
    pub open spec fn idle() -> KeysState {
        KeysState { pressed: Seq::empty(), just_pressed: Seq::empty() }
    }

    /// A key went down: it is held from now on, and it is reported at the
    /// next poll, also where it was held already.
    pub open spec fn key_down(self, key: char) -> KeysState {
        KeysState {
            pressed: if self.pressed.contains(key) {
                self.pressed
            } else {
                self.pressed.push(key)
            },
            just_pressed: self.just_pressed.push(key),
        }
    }

    /// A key came up: it is held no longer.
    pub open spec fn key_up(self, key: char) -> KeysState {
        KeysState { pressed: self.pressed.filter(other_than(key)), ..self }
    }

    /// A key was struck on a keyboard that reports no release: a key that
    /// was held is released, any other is held from now on and reported at
    /// the next poll.
    pub open spec fn key_toggle(self, key: char) -> KeysState {
        if self.pressed.contains(key) {
            self.key_up(key)
        } else {
            self.key_down(key)
        }
    }

    /// The poll is over: nothing is newly pressed any more.
    pub open spec fn clear_just_pressed(self) -> KeysState {
        KeysState { just_pressed: Seq::empty(), ..self }
    }

    /// Whether the key with the given code is held. A code beyond the
    /// keypad counts as held.
    pub open spec fn is_code_pressed(self, code: u8) -> bool {
        match key_char(code) {
            Some(key) => self.pressed.contains(key),
            None => true,
        }
    }

    /// The codes of the keypad keys that went down since the last poll.
    pub open spec fn get_just_pressed(self) -> Seq<u8> {
        keypad_codes(self.just_pressed)
    }
}

/// A keypad fed by key events, such as those of a browser.
#[derive(Debug)]
pub struct WebIO {
    pressed_keys: Vec<char>,
    just_pressed_keys: Vec<char>,
}

impl View for WebIO {
    type V = KeysState;

    closed spec fn view(&self) -> KeysState {
        KeysState { pressed: self.pressed_keys@, just_pressed: self.just_pressed_keys@ }
    }
}

fn contains_key(keys: &Vec<char>, key: char) -> (found: bool)
    ensures
        found == keys@.contains(key),
{
    let mut i: usize = 0;
    while i < keys.len()
        invariant
            i <= keys@.len(),
            forall|j: int| 0 <= j < i ==> keys@[j] != key,
        decreases keys@.len() - i,
    {
        if keys[i] == key {
            return true;
        }
        i = i + 1;
    }
    false
}

fn without_key(keys: &Vec<char>, key: char) -> (rest: Vec<char>)
    ensures
        rest@ == keys@.filter(other_than(key)),
{
    let mut rest: Vec<char> = Vec::new();
    let mut i: usize = 0;
    proof {
        reveal(Seq::filter);
        assert(keys@.take(0) =~= Seq::<char>::empty());
    }
    while i < keys.len()
        invariant
            i <= keys@.len(),
            rest@ == keys@.take(i as int).filter(other_than(key)),
        decreases keys@.len() - i,
    {
        proof {
            reveal(Seq::filter);
            assert(keys@.take(i + 1).drop_last() =~= keys@.take(i as int));
            assert(keys@.take(i + 1).last() == keys@[i as int]);
        }
        if keys[i] != key {
            rest.push(keys[i]);
        }
        i = i + 1;
    }
    assert(keys@.take(i as int) =~= keys@);
    rest
}

impl WebIO {
    pub fn new() -> (io: WebIO)
        ensures
            io@ == KeysState::idle(),
    {
        WebIO { pressed_keys: Vec::new(), just_pressed_keys: Vec::new() }
    }

    pub fn key_down(&mut self, key: char)
        ensures
            final(self)@ == old(self)@.key_down(key),
    {
        if !contains_key(&self.pressed_keys, key) {
            self.pressed_keys.push(key);
        }
        self.just_pressed_keys.push(key);
    }

    pub fn key_up(&mut self, key: char)
        ensures
            final(self)@ == old(self)@.key_up(key),
    {
        self.pressed_keys = without_key(&self.pressed_keys, key);
    }

    pub fn key_toggle(&mut self, key: char)
        ensures
            final(self)@ == old(self)@.key_toggle(key),
    {
        if contains_key(&self.pressed_keys, key) {
            self.key_up(key);
        } else {
            self.key_down(key);
        }
    }

    pub fn clear_just_pressed(&mut self)
        ensures
            final(self)@ == old(self)@.clear_just_pressed(),
    {
        self.just_pressed_keys.clear();
    }
}

impl IO for WebIO {
    fn is_code_pressed(&self, code: u8) -> (pressed: bool)
        ensures
            pressed == self@.is_code_pressed(code),
    {
        match key_to_char(code) {
            Some(key) => contains_key(&self.pressed_keys, key),
            None => true,
        }
    }

    fn get_just_pressed(&self) -> (codes: Vec<u8>)
        ensures
            codes@ == self@.get_just_pressed(),
    {
        let mut codes: Vec<u8> = Vec::new();
        let mut i: usize = 0;
        proof {
            assert(self.just_pressed_keys@.take(0) =~= Seq::<char>::empty());
        }
        while i < self.just_pressed_keys.len()
            invariant
                i <= self.just_pressed_keys@.len(),
                codes@ == self.just_pressed_keys@.take(i as int).filter_map(to_key_code()),
            decreases self.just_pressed_keys@.len() - i,
        {
            proof {
                let keys = self.just_pressed_keys@;
                assert(keys.take(i + 1).drop_last() =~= keys.take(i as int));
                assert(keys.take(i + 1).last() == keys[i as int]);
            }
            match char_to_key(self.just_pressed_keys[i]) {
                Some(code) => {
                    codes.push(code);
                },
                None => {},
            }
            i = i + 1;
        }
        assert(self.just_pressed_keys@.take(i as int) =~= self.just_pressed_keys@);
        codes
    }
}

} // verus!
