//! A clickable on-screen button with a verified hit test, click counter and
//! per-frame state update.

pub mod button;
pub mod clickable;
pub mod drawing;
pub mod game;

pub use button::UIButton;
pub use clickable::{Clickable, Hitbox};
pub use drawing::{ButtonDrawing, RectCommand, TextCommand};
pub use game::GameState;
