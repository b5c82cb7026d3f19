//! A per-tick snapshot of the movement keys.
//!
//! Each movement direction has two bound keys (a letter key and an arrow
//! key); a direction counts as held when either of its keys is down. The
//! snapshot is produced once per tick by the input layer of the surrounding
//! application and read once by the movement controller.

use vstd::prelude::*;

verus! {

/// The pressed state of the eight bound movement keys at one tick.
#[derive(Clone, Copy, PartialEq, Eq, Structural, Debug)]
pub struct InputSnapshot {
    pub key_w: bool,
    pub key_s: bool,
    pub key_a: bool,
    pub key_d: bool,
    pub key_up_arrow: bool,
    pub key_down_arrow: bool,
    pub key_left_arrow: bool,
    pub key_right_arrow: bool,
}

impl InputSnapshot {
    /// A snapshot with no key held.
    pub open spec fn spec_released() -> InputSnapshot {
        InputSnapshot {
            key_w: false,
            key_s: false,
            key_a: false,
            key_d: false,
            key_up_arrow: false,
            key_down_arrow: false,
            key_left_arrow: false,
            key_right_arrow: false,
        }
    }

    /// Up is held when W or the up arrow is down.
    pub open spec fn spec_up_held(self) -> bool {
        self.key_w || self.key_up_arrow
    }

    /// Down is held when S or the down arrow is down. The vertical axis
    /// deliberately ignores this direction; it is still reported so the
    /// snapshot describes the whole binding set.
    pub open spec fn spec_down_held(self) -> bool {
        self.key_s || self.key_down_arrow
    }

    /// Left is held when A or the left arrow is down.
    pub open spec fn spec_left_held(self) -> bool {
        self.key_a || self.key_left_arrow
    }

    /// Right is held when D or the right arrow is down.
    pub open spec fn spec_right_held(self) -> bool {
        self.key_d || self.key_right_arrow
    }

    /// A snapshot with no key held.
    pub fn released() -> (s: InputSnapshot)
        ensures
            s == InputSnapshot::spec_released(),
    {
        InputSnapshot {
            key_w: false,
            key_s: false,
            key_a: false,
            key_d: false,
            key_up_arrow: false,
            key_down_arrow: false,
            key_left_arrow: false,
            key_right_arrow: false,
        }
    }

    pub fn up_held(&self) -> (held: bool)
        ensures
            held == self.spec_up_held(),
    {
        self.key_w || self.key_up_arrow
    }

    pub fn down_held(&self) -> (held: bool)
        ensures
            held == self.spec_down_held(),
    {
        self.key_s || self.key_down_arrow
    }

    pub fn left_held(&self) -> (held: bool)
        ensures
            held == self.spec_left_held(),
    {
        self.key_a || self.key_left_arrow
    }

    pub fn right_held(&self) -> (held: bool)
        ensures
            held == self.spec_right_held(),
    {
        self.key_d || self.key_right_arrow
    }
}

} // verus!
