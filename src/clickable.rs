//! The hover / click capability shared by rectangular interactive entities.

use vstd::prelude::*;

verus! {

/// A rectangle as `(x, y, width, height)`.
pub type Hitbox = (i32, i32, i32, i32);

/// The point `(px, py)` lies in the rectangle, edges included:
/// `x <= px <= x + w` and `y <= py <= y + h`.
pub open spec fn contains_point(hitbox: Hitbox, px: int, py: int) -> bool {
    &&& hitbox.0 <= px <= hitbox.0 + hitbox.2
    &&& hitbox.1 <= py <= hitbox.1 + hitbox.3
}

/// Both corners of a rectangle of non-negative width and height, `(x, y)`
/// and `(x + w, y + h)`, lie in it.
pub proof fn lemma_corners_inside(hitbox: Hitbox)
    requires
        hitbox.2 >= 0,
        hitbox.3 >= 0,
    ensures
        contains_point(hitbox, hitbox.0 as int, hitbox.1 as int),
        contains_point(hitbox, hitbox.0 + hitbox.2, hitbox.1 + hitbox.3),
{
}

/// An entity that can be hovered by a pointer and clicked.
pub trait Clickable: Sized {
    /// The entity after its hover flag has been set to `hover`.
    spec fn with_hover(self, hover: bool) -> Self;

    /// The entity after one registered click.
    spec fn clicked(self) -> Self;

    /// Records whether the pointer is over the entity.
    fn hover_state(&mut self, hover: bool)
        ensures
            *final(self) == old(self).with_hover(hover),
    ;

    /// Registers one click on the entity.
    fn click(&mut self)
        ensures
            *final(self) == old(self).clicked(),
    ;

    /// Tests the pointer `(mx, my)` against `hitbox`, edges included, and
    /// records the outcome with `hover_state`. When the pointer is inside,
    /// the entity is handed back so that a click can be registered on it.
    fn hover(&mut self, hitbox: Hitbox, mx: i32, my: i32) -> (r: Option<&mut Self>)
        ensures
            r is Some <==> contains_point(hitbox, mx as int, my as int),
            match r {
                Some(e) => *e == old(self).with_hover(true) && *final(self) == *final(e),
                None => *final(self) == old(self).with_hover(false),
            },
    {
        let x = hitbox.0 as i64;
        let y = hitbox.1 as i64;
        let mx = mx as i64;
        let my = my as i64;
        if x <= mx && mx <= x + hitbox.2 as i64 && y <= my && my <= y + hitbox.3 as i64 {
            self.hover_state(true);
            Some(self)
        } else {
            self.hover_state(false);
            None
        }
    }
}

} // verus!
