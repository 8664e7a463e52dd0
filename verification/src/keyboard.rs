use vstd::prelude::*;

verus! {

/// The sixteen-key hexadecimal keypad. It holds the current pressed state of
/// each key, plus the most recent press that a wait-for-key operation has not
/// yet consumed. The outer driver records presses and releases; the executor
/// only queries them.
pub struct Keyboard {
    /// Pressed state, one entry per key `0x0..=0xF`.
    pub keys: Vec<bool>,
    /// The most recent key press, if no wait-for-key operation consumed it yet.
    pub last_press: Option<u8>,
}

impl Keyboard {
    /// Well-formed: exactly sixteen key states, and a recorded press names a
    /// real key.
    pub open spec fn wf(&self) -> bool {
        &&& self.keys@.len() == 16
        &&& match self.last_press {
            Some(k) => k < 16,
            None => true,
        }
    }

    /// A keypad with no key pressed and no press recorded.
    pub fn new() -> (kb: Keyboard)
        ensures
            kb.wf(),
            forall|i: int| 0 <= i < 16 ==> !kb.keys@[i],
            kb.last_press is None,
    {
        let mut keys: Vec<bool> = Vec::new();
        let mut i: usize = 0;
        while i < 16
            invariant
                i <= 16,
                keys@.len() == i,
                forall|j: int| 0 <= j < i ==> !keys@[j],
            decreases 16 - i,
        {
            keys.push(false);
            i += 1;
        }
        Keyboard { keys, last_press: None }
    }

    /// Record that `key` went down: it is now pressed, and it becomes the
    /// most recent press for a wait-for-key operation to pick up.
    pub fn press(&mut self, key: u8)
        requires
            old(self).wf(),
            key < 16,
        ensures
            final(self).wf(),
            final(self).keys@ == old(self).keys@.update(key as int, true),
            final(self).last_press == Some(key),
    {
        self.keys.set(key as usize, true);
        self.last_press = Some(key);
    }

    /// Record that `key` went up. A recorded press stays available: releasing
    /// a key does not take a press away from a pending wait-for-key.
    pub fn release(&mut self, key: u8)
        requires
            old(self).wf(),
            key < 16,
        ensures
            final(self).wf(),
            final(self).keys@ == old(self).keys@.update(key as int, false),
            final(self).last_press == old(self).last_press,
    {
        self.keys.set(key as usize, false);
    }

    /// Whether `key` is currently held down.
    pub fn is_pressed(&self, key: u8) -> (r: bool)
        requires
            self.wf(),
            key < 16,
        ensures
            r == self.keys@[key as int],
    {
        self.keys[key as usize]
    }

    /// Hand out the most recent unconsumed press, if any, and consume it.
    pub fn take_press(&mut self) -> (r: Option<u8>)
        requires
            old(self).wf(),
        ensures
            final(self).wf(),
            r == old(self).last_press,
            final(self).keys == old(self).keys,
            final(self).last_press is None,
            r is Some ==> r.unwrap() < 16,
    {
        let r = self.last_press;
        self.last_press = None;
        r
    }
}

} // verus!
