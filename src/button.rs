//! A rectangular, labelled button that counts the clicks it receives.

use vstd::prelude::*;
use vstd::string::StrSliceExecFns;
use crate::clickable::{contains_point, Clickable, Hitbox};
use crate::drawing::{
    clamp_i32, clamp_to_i32, decimal, decimal_text, half, half_i128, ButtonDrawing, RectCommand,
    TextCommand, DARK, WHITE,
};

verus! {

/// A labelled button: where it stands, whether the pointer is over it, and
/// how many clicks it has received.
#[derive(Debug, PartialEq)]
pub struct UIButton {
    /// `(x, y, width, height)`.
    pub hitbox: Hitbox,
    pub text: String,
    pub hovered: bool,
    pub count: u32,
}

impl UIButton {
    /// A button with the given label and hitbox, not hovered, with no clicks.
    pub fn new(text: &str, hitbox: Hitbox) -> (r: Self)
        ensures
            r.text@ == text@,
            r.hitbox == hitbox,
            !r.hovered,
            r.count == 0,
    {
        UIButton { hitbox, text: text.to_owned(), hovered: false, count: 0 }
    }

    /// Background and text colours: dark on white at rest, white on dark
    /// while hovered.
    pub open spec fn colors(self) -> (u32, u32) {
        if self.hovered { (DARK, WHITE) } else { (WHITE, DARK) }
    }

    /// Where the label starts horizontally: the middle of the hitbox less
    /// half the label's width, each character taken as five units wide
    /// (rounded down).
    pub open spec fn label_x(self) -> int {
        self.hitbox.0 + half(self.hitbox.2 as int) - (5 * self.text@.len()) / 2
    }

    /// Where the label starts vertically: three units above the middle of
    /// the hitbox.
    pub open spec fn label_y(self) -> int {
        self.hitbox.1 + half(self.hitbox.3 as int) - 3
    }

    /// What the button draws: its hitbox filled with the background colour,
    /// the label, and eight units below the label the click count in decimal.
    /// Positions beyond the range of `i32` are clamped to it.
    pub fn draw(&self) -> (r: ButtonDrawing)
        ensures
            r.background == (RectCommand {
                x: self.hitbox.0,
                y: self.hitbox.1,
                w: self.hitbox.2,
                h: self.hitbox.3,
                color: self.colors().0,
            }),
            r.label.text@ == self.text@,
            r.label.x == clamp_i32(self.label_x()),
            r.label.y == clamp_i32(self.label_y()),
            r.label.color == self.colors().1,
            r.counter.text@ == decimal(self.count as nat),
            r.counter.x == clamp_i32(self.label_x()),
            r.counter.y == clamp_i32(self.label_y() + 8),
            r.counter.color == self.colors().1,
    {
        let (background, foreground): (u32, u32) = if self.hovered {
            (DARK, WHITE)
        } else {
            (WHITE, DARK)
        };
        let chars = self.text.as_str().unicode_len() as i128;
        let x = self.hitbox.0 as i128 + half_i128(self.hitbox.2) - (5 * chars) / 2;
        let y = self.hitbox.1 as i128 + half_i128(self.hitbox.3) - 3;
        let text_x = clamp_to_i32(x);
        ButtonDrawing {
            background: RectCommand {
                x: self.hitbox.0,
                y: self.hitbox.1,
                w: self.hitbox.2,
                h: self.hitbox.3,
                color: background,
            },
            label: TextCommand {
                text: self.text.clone(),
                x: text_x,
                y: clamp_to_i32(y),
                color: foreground,
            },
            counter: TextCommand {
                text: decimal_text(self.count),
                x: text_x,
                y: clamp_to_i32(y + 8),
                color: foreground,
            },
        }
    }
}

impl UIButton {
    /// The button after `n` clicks.
    pub open spec fn clicked_times(self, n: nat) -> Self
        decreases n,
    {
        if n == 0 { self } else { self.clicked_times((n - 1) as nat).clicked() }
    }
}

/// Hovering sets the button's flag to whether the pointer lies in the
/// hitbox, and leaves its hitbox, label and count as they were.
pub proof fn lemma_hover_sets_flag(b: UIButton, hitbox: Hitbox, mx: int, my: int)
    ensures
        b.with_hover(contains_point(hitbox, mx, my)).hovered == contains_point(hitbox, mx, my),
        b.with_hover(contains_point(hitbox, mx, my)).hitbox == b.hitbox,
        b.with_hover(contains_point(hitbox, mx, my)).text == b.text,
        b.with_hover(contains_point(hitbox, mx, my)).count == b.count,
{
}

/// Each click adds exactly one to the count while it stays within `u32`:
/// `n` clicks on a button with count `c` leave it at `c + n`, so `n` clicks
/// on a new button leave it at `n`.
pub proof fn lemma_click_count(b: UIButton, n: nat)
    requires
        b.count + n <= u32::MAX,
    ensures
        b.clicked_times(n).count == b.count + n,
        b.clicked_times(n).hovered == b.hovered,
    decreases n,
{
    if n > 0 {
        lemma_click_count(b, (n - 1) as nat);
    }
}

impl Clickable for UIButton {
    open spec fn with_hover(self, hover: bool) -> Self {
        UIButton { hovered: hover, ..self }
    }

    /// One more click; the counter stays at `u32::MAX` once it gets there.
    open spec fn clicked(self) -> Self {
        UIButton { count: if self.count < u32::MAX { (self.count + 1) as u32 } else { self.count }, ..self }
    }

    fn hover_state(&mut self, hover: bool) {
        self.hovered = hover;
    }

    fn click(&mut self)
        ensures
            old(self).count < u32::MAX ==> final(self).count == old(self).count + 1,
            old(self).count == u32::MAX ==> final(self).count == u32::MAX,
    {
        self.count = self.count.saturating_add(1);
    }
}

} // verus!
