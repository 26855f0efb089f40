//! The state kept from frame to frame, and how one frame of input changes it.

use vstd::prelude::*;
use crate::button::UIButton;
use crate::clickable::{contains_point, Clickable};

verus! {

/// The state of the demo: one button and a flag that each click flips.
#[derive(Debug, PartialEq)]
pub struct GameState {
    pub button: UIButton,
    pub toggle: bool,
}

impl GameState {
    /// A "Continue" button at `(90, 44)`, 75 wide and 30 high, untouched,
    /// with the flag off.
    pub fn new() -> (r: Self)
        ensures
            r.button.text@ == "Continue"@,
            r.button.hitbox == (90i32, 44i32, 75i32, 30i32),
            !r.button.hovered,
            r.button.count == 0,
            !r.toggle,
    {
        GameState { button: UIButton::new("Continue", (90, 44, 75, 30)), toggle: false }
    }

    /// The state after a frame in which the pointer stood at `(mx, my)` and
    /// the left button was just pressed (`pressed`) or not: the button's
    /// hover flag follows the pointer, and a press over the button counts a
    /// click and flips the flag.
    pub open spec fn stepped(self, mx: int, my: int, pressed: bool) -> Self {
        let inside = contains_point(self.button.hitbox, mx, my);
        let hovered = self.button.with_hover(inside);
        if inside && pressed {
            GameState { button: hovered.clicked(), toggle: !self.toggle }
        } else {
            GameState { button: hovered, toggle: self.toggle }
        }
    }

    /// Takes one frame of pointer input: the position `(mx, my)` and whether
    /// the left button was pressed during this frame.
    pub fn update(&mut self, mx: i32, my: i32, pressed: bool)
        ensures
            *final(self) == old(self).stepped(mx as int, my as int, pressed),
    {
        let hitbox = self.button.hitbox;
        if let Some(b) = self.button.hover(hitbox, mx, my) {
            if pressed {
                b.click();
                self.toggle = !self.toggle;
            }
        }
    }

    /// The greeting shown for the current flag.
    pub fn message(&self) -> (r: &'static str)
        ensures
            r@ == (if self.toggle { "Goodnight, world!!!"@ } else { "Hello, world!!!"@ }),
    {
        if self.toggle { "Goodnight, world!!!" } else { "Hello, world!!!" }
    }
}

/// A press over the button flips the flag, so two presses over it bring the
/// flag back to where it was; a frame without a press, or with one outside
/// the button, leaves the flag alone.
pub proof fn lemma_press_flips_toggle(s: GameState, mx: int, my: int)
    ensures
        contains_point(s.button.hitbox, mx, my) ==> s.stepped(mx, my, true).toggle == !s.toggle,
        contains_point(s.button.hitbox, mx, my) ==> s.stepped(mx, my, true).stepped(
            mx,
            my,
            true,
        ).toggle == s.toggle,
        !contains_point(s.button.hitbox, mx, my) ==> s.stepped(mx, my, true).toggle == s.toggle,
        s.stepped(mx, my, false).toggle == s.toggle,
{
}

} // verus!
