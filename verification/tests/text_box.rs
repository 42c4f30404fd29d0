use text_anchor::align::{Horizontal, Vertical};
use text_anchor::layout::{compute, Viewport};
use text_anchor::text_box::{TextBox, DEFAULT_SIZE};

#[test]
fn new_uses_default_size_and_centered_alignments() {
    let tb = TextBox::new(String::from("hello"));
    assert_eq!(tb.text, "hello");
    assert_eq!(tb.size, DEFAULT_SIZE);
    assert_eq!(tb.halign, Horizontal::Center);
    assert_eq!(tb.valign, Vertical::Middle);
}

#[test]
fn builders_replace_only_their_alignment() {
    let tb = TextBox::new(String::from("upper left"))
        .halign(Horizontal::Left)
        .valign(Vertical::Top);
    assert_eq!(tb.text, "upper left");
    assert_eq!(tb.size, DEFAULT_SIZE);
    assert_eq!(tb.halign, Horizontal::Left);
    assert_eq!(tb.valign, Vertical::Top);
}

#[test]
fn default_is_an_empty_centered_box() {
    let tb = TextBox::default();
    assert_eq!(tb.text, "");
    assert_eq!(tb.size, DEFAULT_SIZE);
    assert_eq!(tb.halign, Horizontal::Center);
    assert_eq!(tb.valign, Vertical::Middle);
}

#[test]
fn placement_agrees_with_the_calculator() {
    let v = Viewport { x: 0, y: 0, w: 800, h: 600 };
    let tb = TextBox::new(String::from("middle right"))
        .halign(Horizontal::Right)
        .valign(Vertical::Middle);
    assert_eq!(tb.placement(v), compute(v, DEFAULT_SIZE, Horizontal::Right, Vertical::Middle));
    let p = tb.placement(v).unwrap();
    assert_eq!(p.anchor.x, 1500);
    assert_eq!(p.anchor.y, 600);
}

#[test]
fn wrap_bounds_shrink_the_viewport_by_the_size() {
    let v = Viewport { x: 0, y: 0, w: 800, h: 600 };
    let tb = TextBox::new(String::from("middle center"));
    assert_eq!(tb.wrap_bounds(v), (700, 500));
    let small = Viewport { x: 0, y: 0, w: 60, h: 40 };
    assert_eq!(tb.wrap_bounds(small), (-40, -60));
}
