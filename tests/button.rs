use turbo_button::{Clickable, GameState, RectCommand, UIButton};

fn continue_button() -> UIButton {
    UIButton::new("Continue", (90, 44, 75, 30))
}

#[test]
fn new_button_is_idle() {
    let b = continue_button();
    assert_eq!(b.text, "Continue");
    assert_eq!(b.hitbox, (90, 44, 75, 30));
    assert!(!b.hovered);
    assert_eq!(b.count, 0);
}

#[test]
fn end_to_end_continue_button() {
    let mut b = continue_button();
    let hitbox = b.hitbox;
    match b.hover(hitbox, 100, 50) {
        Some(e) => e.click(),
        None => panic!("pointer inside the hitbox was not seen"),
    }
    assert!(b.hovered);
    assert_eq!(b.count, 1);
    assert!(b.hover(hitbox, 10, 10).is_none());
    assert!(!b.hovered);
    assert_eq!(b.count, 1);
}

#[test]
fn hover_inside_and_outside() {
    let mut b = continue_button();
    let hitbox = b.hitbox;
    for (mx, my) in [(91, 45), (127, 59), (164, 73)] {
        assert!(b.hover(hitbox, mx, my).is_some());
        assert!(b.hovered);
    }
    for (mx, my) in [(89, 50), (166, 50), (100, 43), (100, 75), (-100, -100)] {
        assert!(b.hover(hitbox, mx, my).is_none());
        assert!(!b.hovered);
    }
}

#[test]
fn hover_edges_are_inside() {
    let mut b = continue_button();
    let hitbox = b.hitbox;
    for (mx, my) in [(90, 44), (165, 74), (90, 74), (165, 44)] {
        assert!(b.hover(hitbox, mx, my).is_some());
        assert!(b.hovered);
    }
}

#[test]
fn hover_uses_given_hitbox() {
    let mut b = continue_button();
    assert!(b.hover((0, 0, 10, 10), 5, 5).is_some());
    assert!(b.hovered);
    assert!(b.hover((0, 0, 10, 10), 100, 50).is_none());
    assert!(!b.hovered);
}

#[test]
fn hover_negative_size_is_empty() {
    let mut b = UIButton::new("x", (10, 10, -5, -5));
    let hitbox = b.hitbox;
    assert!(b.hover(hitbox, 10, 10).is_none());
    assert!(b.hover(hitbox, 7, 7).is_none());
    assert!(!b.hovered);
}

#[test]
fn hover_zero_size_is_one_point() {
    let mut b = UIButton::new("x", (3, 4, 0, 0));
    let hitbox = b.hitbox;
    assert!(b.hover(hitbox, 3, 4).is_some());
    assert!(b.hover(hitbox, 4, 4).is_none());
}

#[test]
fn hover_at_the_limits_of_i32() {
    let mut b = UIButton::new("x", (i32::MAX, i32::MIN, i32::MAX, i32::MAX));
    let hitbox = b.hitbox;
    assert!(b.hover(hitbox, i32::MAX, -1).is_some());
    assert!(b.hover(hitbox, i32::MAX, 0).is_none());
    assert!(b.hover(hitbox, i32::MAX - 1, 0).is_none());
}

#[test]
fn click_counts_each_call() {
    let mut b = continue_button();
    for n in 1..=25u32 {
        b.click();
        assert_eq!(b.count, n);
    }
}

#[test]
fn click_saturates_at_max() {
    let mut b = continue_button();
    b.count = u32::MAX - 1;
    b.click();
    assert_eq!(b.count, u32::MAX);
    b.click();
    assert_eq!(b.count, u32::MAX);
}

#[test]
fn hover_state_sets_flag() {
    let mut b = continue_button();
    b.hover_state(true);
    assert!(b.hovered);
    b.hover_state(false);
    assert!(!b.hovered);
    assert_eq!(b.count, 0);
}

#[test]
fn draw_colors_follow_hover() {
    let mut b = continue_button();
    let d = b.draw();
    assert_eq!(d.background.color, 0xffffffff);
    assert_eq!(d.label.color, 0x323b42ff);
    assert_eq!(d.counter.color, 0x323b42ff);
    b.hovered = true;
    let d = b.draw();
    assert_eq!(d.background.color, 0x323b42ff);
    assert_eq!(d.label.color, 0xffffffff);
    assert_eq!(d.counter.color, 0xffffffff);
}

#[test]
fn draw_layout_of_continue_button() {
    let b = continue_button();
    let d = b.draw();
    assert_eq!(
        d.background,
        RectCommand { x: 90, y: 44, w: 75, h: 30, color: 0xffffffff }
    );
    assert_eq!(d.label.text, "Continue");
    assert_eq!((d.label.x, d.label.y), (107, 56));
    assert_eq!(d.counter.text, "0");
    assert_eq!((d.counter.x, d.counter.y), (107, 64));
}

#[test]
fn draw_counter_in_decimal() {
    let mut b = continue_button();
    b.count = 42;
    assert_eq!(b.draw().counter.text, "42");
    b.count = 1007;
    assert_eq!(b.draw().counter.text, "1007");
    b.count = u32::MAX;
    assert_eq!(b.draw().counter.text, "4294967295");
}

#[test]
fn draw_odd_label_rounds_down() {
    let b = UIButton::new("abc", (0, 0, 11, 9));
    let d = b.draw();
    assert_eq!((d.label.x, d.label.y), (5 - 7, 4 - 3));
}

#[test]
fn draw_negative_size_halves_toward_zero() {
    let b = UIButton::new("", (0, 0, -5, -7));
    let d = b.draw();
    assert_eq!((d.label.x, d.label.y), (-2, -6));
    assert_eq!(d.counter.y, 2);
}

#[test]
fn draw_clamps_to_i32() {
    let b = UIButton::new("", (i32::MAX, i32::MIN, i32::MAX, i32::MIN));
    let d = b.draw();
    assert_eq!(d.label.x, i32::MAX);
    assert_eq!(d.label.y, i32::MIN);
    assert_eq!(d.counter.y, i32::MIN);
}

#[test]
fn game_state_starts_fresh() {
    let s = GameState::new();
    assert_eq!(s.button.text, "Continue");
    assert_eq!(s.button.hitbox, (90, 44, 75, 30));
    assert!(!s.button.hovered);
    assert_eq!(s.button.count, 0);
    assert!(!s.toggle);
    assert_eq!(s.message(), "Hello, world!!!");
}

#[test]
fn two_presses_restore_toggle() {
    let mut s = GameState::new();
    s.update(100, 50, true);
    assert!(s.toggle);
    assert_eq!(s.button.count, 1);
    assert_eq!(s.message(), "Goodnight, world!!!");
    s.update(100, 50, true);
    assert!(!s.toggle);
    assert_eq!(s.button.count, 2);
    assert_eq!(s.message(), "Hello, world!!!");
}

#[test]
fn update_without_press_or_outside() {
    let mut s = GameState::new();
    s.update(100, 50, false);
    assert!(s.button.hovered);
    assert!(!s.toggle);
    assert_eq!(s.button.count, 0);
    s.update(10, 10, true);
    assert!(!s.button.hovered);
    assert!(!s.toggle);
    assert_eq!(s.button.count, 0);
}
