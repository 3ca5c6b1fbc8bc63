//! Keyboard and mouse-button state with per-tick edge tracking.
//!
//! Keys and buttons are plain integer codes; the windowing layer outside
//! this crate maps its own key type onto codes before calling in. The
//! held sets persist across ticks; the just-pressed / just-released sets
//! are edge state, cleared by `update` at the end of every tick.

use std::collections::HashSet;

use vstd::prelude::*;

verus! {

broadcast use vstd::std_specs::hash::group_hash_axioms;

/// Key and mouse-button state of the host's input devices.
pub struct Input {
    just_pressed: HashSet<u32>,
    pressed: HashSet<u32>,
    just_released: HashSet<u32>,
    mouse_just_pressed: HashSet<u32>,
    mouse_pressed: HashSet<u32>,
    mouse_just_released: HashSet<u32>,
}

impl Input {
    /// The keys currently held.
    pub closed spec fn spec_pressed(self) -> Set<u32> {
        self.pressed@
    }

    /// The keys that went down since the last `update`.
    pub closed spec fn spec_just_pressed(self) -> Set<u32> {
        self.just_pressed@
    }

    /// The keys that went up since the last `update`.
    pub closed spec fn spec_just_released(self) -> Set<u32> {
        self.just_released@
    }

    /// The mouse buttons currently held.
    pub closed spec fn spec_mouse_pressed(self) -> Set<u32> {
        self.mouse_pressed@
    }

    /// The mouse buttons that went down since the last `update`.
    pub closed spec fn spec_mouse_just_pressed(self) -> Set<u32> {
        self.mouse_just_pressed@
    }

    /// The mouse buttons that went up since the last `update`.
    pub closed spec fn spec_mouse_just_released(self) -> Set<u32> {
        self.mouse_just_released@
    }

    /// Input state with nothing held and no edges.
    pub fn new() -> (inp: Input)
        ensures
            inp.spec_pressed() == Set::<u32>::empty(),
            inp.spec_just_pressed() == Set::<u32>::empty(),
            inp.spec_just_released() == Set::<u32>::empty(),
            inp.spec_mouse_pressed() == Set::<u32>::empty(),
            inp.spec_mouse_just_pressed() == Set::<u32>::empty(),
            inp.spec_mouse_just_released() == Set::<u32>::empty(),
    {
        Input {
            just_pressed: HashSet::new(),
            pressed: HashSet::new(),
            just_released: HashSet::new(),
            mouse_just_pressed: HashSet::new(),
            mouse_pressed: HashSet::new(),
            mouse_just_released: HashSet::new(),
        }
    }

    /// End-of-tick reset: clear the edge sets so the next tick starts from
    /// a clean edge state; what is held stays held.
    pub fn update(&mut self)
        ensures
            final(self).spec_pressed() == old(self).spec_pressed(),
            final(self).spec_mouse_pressed() == old(self).spec_mouse_pressed(),
            final(self).spec_just_pressed() == Set::<u32>::empty(),
            final(self).spec_just_released() == Set::<u32>::empty(),
            final(self).spec_mouse_just_pressed() == Set::<u32>::empty(),
            final(self).spec_mouse_just_released() == Set::<u32>::empty(),
    {
        self.just_pressed.clear();
        self.just_released.clear();
        self.mouse_just_pressed.clear();
        self.mouse_just_released.clear();
    }

    /// Record a key event. A press adds the key to the held set and to the
    /// just-pressed edge set; a release removes it from the held set and
    /// adds it to the just-released edge set. Mouse state is untouched.
    pub fn event(&mut self, code: u32, is_pressed: bool)
        ensures
            is_pressed ==> {
                &&& final(self).spec_pressed() == old(self).spec_pressed().insert(code)
                &&& final(self).spec_just_pressed()
                    == old(self).spec_just_pressed().insert(code)
                &&& final(self).spec_just_released() == old(self).spec_just_released()
            },
            !is_pressed ==> {
                &&& final(self).spec_pressed() == old(self).spec_pressed().remove(code)
                &&& final(self).spec_just_released()
                    == old(self).spec_just_released().insert(code)
                &&& final(self).spec_just_pressed() == old(self).spec_just_pressed()
            },
            final(self).spec_mouse_pressed() == old(self).spec_mouse_pressed(),
            final(self).spec_mouse_just_pressed() == old(self).spec_mouse_just_pressed(),
            final(self).spec_mouse_just_released() == old(self).spec_mouse_just_released(),
    {
        if is_pressed {
            self.pressed.insert(code);
            self.just_pressed.insert(code);
        } else {
            self.pressed.remove(&code);
            self.just_released.insert(code);
        }
    }

    /// Record a mouse-button event, like `event` but on the mouse sets.
    pub fn mouse_event(&mut self, button: u32, is_pressed: bool)
        ensures
            is_pressed ==> {
                &&& final(self).spec_mouse_pressed()
                    == old(self).spec_mouse_pressed().insert(button)
                &&& final(self).spec_mouse_just_pressed()
                    == old(self).spec_mouse_just_pressed().insert(button)
                &&& final(self).spec_mouse_just_released()
                    == old(self).spec_mouse_just_released()
            },
            !is_pressed ==> {
                &&& final(self).spec_mouse_pressed()
                    == old(self).spec_mouse_pressed().remove(button)
                &&& final(self).spec_mouse_just_released()
                    == old(self).spec_mouse_just_released().insert(button)
                &&& final(self).spec_mouse_just_pressed()
                    == old(self).spec_mouse_just_pressed()
            },
            final(self).spec_pressed() == old(self).spec_pressed(),
            final(self).spec_just_pressed() == old(self).spec_just_pressed(),
            final(self).spec_just_released() == old(self).spec_just_released(),
    {
        if is_pressed {
            self.mouse_just_pressed.insert(button);
            self.mouse_pressed.insert(button);
        } else {
            self.mouse_pressed.remove(&button);
            self.mouse_just_released.insert(button);
        }
    }

    /// Whether the key is currently held.
    pub fn pressed(&self, code: u32) -> (r: bool)
        ensures
            r == self.spec_pressed().contains(code),
    {
        self.pressed.contains(&code)
    }

    /// Whether the key went down since the last `update`.
    pub fn just_pressed(&self, code: u32) -> (r: bool)
        ensures
            r == self.spec_just_pressed().contains(code),
    {
        self.just_pressed.contains(&code)
    }

    /// Whether the key went up since the last `update`.
    pub fn just_released(&self, code: u32) -> (r: bool)
        ensures
            r == self.spec_just_released().contains(code),
    {
        self.just_released.contains(&code)
    }

    /// Whether the mouse button is currently held.
    pub fn mouse_pressed(&self, button: u32) -> (r: bool)
        ensures
            r == self.spec_mouse_pressed().contains(button),
    {
        self.mouse_pressed.contains(&button)
    }

    /// Whether the mouse button went down since the last `update`.
    pub fn mouse_just_pressed(&self, button: u32) -> (r: bool)
        ensures
            r == self.spec_mouse_just_pressed().contains(button),
    {
        self.mouse_just_pressed.contains(&button)
    }

    /// Whether the mouse button went up since the last `update`.
    pub fn mouse_just_released(&self, button: u32) -> (r: bool)
        ensures
            r == self.spec_mouse_just_released().contains(button),
    {
        self.mouse_just_released.contains(&button)
    }

    /// An axis value from a pair of opposing keys: +1 for `pos` held, -1
    /// for `neg` held, their sum when both.
    pub fn key_value(&self, pos: u32, neg: u32) -> (r: i64)
        ensures
            r == (if self.spec_pressed().contains(pos) { 1int } else { 0int })
                - (if self.spec_pressed().contains(neg) { 1int } else { 0int }),
    {
        let mut res: i64 = 0;
        if self.pressed(pos) {
            res = res + 1;
        }
        if self.pressed(neg) {
            res = res - 1;
        }
        res
    }
}

impl Default for Input {
    /// Same as `Input::new`: nothing held, no edges.
    fn default() -> (inp: Input)
        ensures
            inp.spec_pressed() == Set::<u32>::empty(),
            inp.spec_just_pressed() == Set::<u32>::empty(),
            inp.spec_just_released() == Set::<u32>::empty(),
            inp.spec_mouse_pressed() == Set::<u32>::empty(),
            inp.spec_mouse_just_pressed() == Set::<u32>::empty(),
            inp.spec_mouse_just_released() == Set::<u32>::empty(),
    {
        Input::new()
    }
}

} // verus!
