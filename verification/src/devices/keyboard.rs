//! A hexadecimal keypad of sixteen keys (0x0..0xF).

use vstd::prelude::*;

verus! {

/// Sixteen keys, each up or down.
pub struct Keyboard {
    keys: [bool; 16],
}

impl View for Keyboard {
    type V = Seq<bool>;

    closed spec fn view(&self) -> Seq<bool> {
        self.keys@
    }
}

/// The lowest key that is down, if any.
pub open spec fn first_pressed(keys: Seq<bool>) -> Option<u8> {
    if exists|k: int| 0 <= k < keys.len() && keys[k] {
        let k = choose|k: int| 0 <= k < keys.len() && keys[k] && forall|j: int| 0 <= j < k ==> !keys[j];
        Some(k as u8)
    } else {
        None
    }
}

impl Keyboard {
    pub proof fn lemma_len(&self)
        ensures
            self@.len() == 16,
    {
    }

    /// All keys up.
    pub fn new() -> (r: Self)
        ensures
            r@ == Seq::new(16, |i: int| false),
    {
        let r = Keyboard { keys: [false; 16] };
        assert(r@ =~= Seq::new(16, |i: int| false));
        r
    }

    /// Puts a key down (keys above 0xF are ignored).
    pub fn press(&mut self, key: u8)
        ensures
            key < 16 ==> final(self)@ == old(self)@.update(key as int, true),
            key >= 16 ==> final(self)@ == old(self)@,
    {
        if (key as usize) < 16 {
            self.keys[key as usize] = true;
        }
    }

    /// Lets a key up (keys above 0xF are ignored).
    pub fn release(&mut self, key: u8)
        ensures
            key < 16 ==> final(self)@ == old(self)@.update(key as int, false),
            key >= 16 ==> final(self)@ == old(self)@,
    {
        if (key as usize) < 16 {
            self.keys[key as usize] = false;
        }
    }

    /// Whether a key is down (false for keys above 0xF).
    pub fn is_pressed(&self, key: u8) -> (r: bool)
        ensures
            r == (key < 16 && self@[key as int]),
    {
        if (key as usize) < 16 {
            self.keys[key as usize]
        } else {
            false
        }
    }

    /// The lowest key that is down.
    pub fn any_pressed(&self) -> (r: Option<u8>)
        ensures
            r == first_pressed(self@),
    {
        let mut i: usize = 0;
        while i < 16
            invariant
                i <= 16,
                self@.len() == 16,
                forall|j: int| 0 <= j < i ==> !self@[j],
            decreases 16 - i,
        {
            if self.keys[i] {
                assert(forall|k: int| 0 <= k < 16 && self@[k] && (forall|j: int| 0 <= j < k ==> !self@[j]) ==> k == i);
                return Some(i as u8);
            }
            i = i + 1;
        }
        None
    }
}

} // verus!
