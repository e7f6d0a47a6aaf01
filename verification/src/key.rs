//! The ten GBA input buttons and their bitmasks.

use vstd::prelude::*;

verus! {

/// GBA input buttons.
///
/// Each variant corresponds to a physical button on the Game Boy Advance.
/// Use [`Key::mask`] to get the bitmask for a key.
#[derive(Debug, Clone, Copy, PartialEq, Eq, Structural, Hash)]
pub enum Key {
    A,
    B,
    Select,
    Start,
    Right,
    Left,
    Up,
    Down,
    R,
    L,
}

/// Number of GBA buttons.
pub const KEY_COUNT: usize = 10;

/// The position of a key in button order (`A` is 0, `L` is 9).
pub open spec fn key_index(k: Key) -> nat {
    match k {
        Key::A => 0,
        Key::B => 1,
        Key::Select => 2,
        Key::Start => 3,
        Key::Right => 4,
        Key::Left => 5,
        Key::Up => 6,
        Key::Down => 7,
        Key::R => 8,
        Key::L => 9,
    }
}

/// The bitmask of a key: bit `key_index(k)` set, all others clear.
pub open spec fn key_mask(k: Key) -> u32 {
    1u32 << (key_index(k) as u32)
}

/// The name under which a key is displayed.
pub open spec fn key_name(k: Key) -> Seq<char> {
    match k {
        Key::A => "A"@,
        Key::B => "B"@,
        Key::Select => "Select"@,
        Key::Start => "Start"@,
        Key::Right => "Right"@,
        Key::Left => "Left"@,
        Key::Up => "Up"@,
        Key::Down => "Down"@,
        Key::R => "R"@,
        Key::L => "L"@,
    }
}

impl Key {
    /// All GBA keys in button order.
    pub const ALL: [Key; 10] = [
        Key::A,
        Key::B,
        Key::Select,
        Key::Start,
        Key::Right,
        Key::Left,
        Key::Up,
        Key::Down,
        Key::R,
        Key::L,
    ];

    /// The position of this key in button order.
    pub fn index(self) -> (i: u32)
        ensures
            i == key_index(self),
    {
        match self {
            Key::A => 0,
            Key::B => 1,
            Key::Select => 2,
            Key::Start => 3,
            Key::Right => 4,
            Key::Left => 5,
            Key::Up => 6,
            Key::Down => 7,
            Key::R => 8,
            Key::L => 9,
        }
    }

    /// Return the bitmask for this key (bit `N` set, where `N` is the key index).
    pub fn mask(self) -> (m: u32)
        ensures
            m == key_mask(self),
            self == Key::A ==> m == 1u32,
            self == Key::B ==> m == 2u32,
            self == Key::Select ==> m == 4u32,
            self == Key::Start ==> m == 8u32,
            self == Key::Right ==> m == 16u32,
            self == Key::Left ==> m == 32u32,
            self == Key::Up ==> m == 64u32,
            self == Key::Down ==> m == 128u32,
            self == Key::R ==> m == 256u32,
            self == Key::L ==> m == 512u32,
    {
        let m = 1u32 << self.index();
        assert(1u32 << 0u32 == 1u32 && 1u32 << 1u32 == 2u32 && 1u32 << 2u32 == 4u32
            && 1u32 << 3u32 == 8u32 && 1u32 << 4u32 == 16u32 && 1u32 << 5u32 == 32u32
            && 1u32 << 6u32 == 64u32 && 1u32 << 7u32 == 128u32 && 1u32 << 8u32 == 256u32
            && 1u32 << 9u32 == 512u32) by (bit_vector);
        m
    }

    /// The name of this key, as it is displayed.
    pub fn name(self) -> (s: &'static str)
        ensures
            s@ == key_name(self),
            self == Key::A ==> s@ == "A"@,
            self == Key::B ==> s@ == "B"@,
            self == Key::Select ==> s@ == "Select"@,
            self == Key::Start ==> s@ == "Start"@,
            self == Key::Right ==> s@ == "Right"@,
            self == Key::Left ==> s@ == "Left"@,
            self == Key::Up ==> s@ == "Up"@,
            self == Key::Down ==> s@ == "Down"@,
            self == Key::R ==> s@ == "R"@,
            self == Key::L ==> s@ == "L"@,
    {
        match self {
            Key::A => "A",
            Key::B => "B",
            Key::Select => "Select",
            Key::Start => "Start",
            Key::Right => "Right",
            Key::Left => "Left",
            Key::Up => "Up",
            Key::Down => "Down",
            Key::R => "R",
            Key::L => "L",
        }
    }
}

} // verus!

verus! {

/// A key's mask has exactly its own bit set: it is a power of two below
/// `1 << KEY_COUNT`.
pub proof fn lemma_mask_is_single_bit(k: Key)
    ensures
        key_mask(k) != 0,
        key_mask(k) & ((key_mask(k) - 1) as u32) == 0,
        key_mask(k) < 1u32 << 10u32,
{
    let i = key_index(k) as u32;
    assert((1u32 << i) != 0 && (1u32 << i) & (((1u32 << i) - 1) as u32) == 0 && (1u32 << i) < (1u32 << 10u32))
        by (bit_vector)
        requires
            i < 10,
    ;
}

/// The masks of two different keys share no bit, so any set of pressed
/// keys can be told apart from the bitmask built by OR-ing their masks.
pub proof fn lemma_masks_disjoint(a: Key, b: Key)
    requires
        a != b,
    ensures
        key_mask(a) & key_mask(b) == 0,
        key_mask(a) != key_mask(b),
{
    let i = key_index(a) as u32;
    let j = key_index(b) as u32;
    assert(i != j);
    assert((1u32 << i) & (1u32 << j) == 0 && (1u32 << i) != (1u32 << j)) by (bit_vector)
        requires
            i < 10,
            j < 10,
            i != j,
    ;
}

/// `Key::ALL` lists every key exactly once, in button order: its `i`-th
/// entry is the key whose index is `i`.
pub proof fn lemma_all_in_button_order()
    ensures
        Key::ALL@.len() == KEY_COUNT,
        forall|i: int| 0 <= i < KEY_COUNT ==> key_index(#[trigger] Key::ALL@[i]) == i,
        forall|k: Key| #[trigger] Key::ALL@[key_index(k) as int] == k,
{
}

} // verus!
