//! Tests for the layout engine: axis resolution, the two composition
//! primitives, and proportional division among siblings.

use iced_nova::geometry::{Point, Size};
use iced_nova::layout::{
    atomic, distribute, padded, resolve_axis, Length, Limits, Padding,
};

#[test]
fn fixed_resolves_to_clamped_value() {
    // A fixed width inside the allowed range is taken as it is.
    assert_eq!(resolve_axis(Length::Fixed(150), 0, 0, 1000), 150);
}

#[test]
fn fixed_clamps_to_maximum() {
    assert_eq!(resolve_axis(Length::Fixed(5000), 0, 0, 1000), 1000);
}

#[test]
fn fixed_clamps_to_minimum() {
    assert_eq!(resolve_axis(Length::Fixed(50), 0, 200, 1000), 200);
}

#[test]
fn fill_takes_the_whole_span() {
    assert_eq!(resolve_axis(Length::Fill, 123, 0, 640), 640);
}

#[test]
fn shrink_takes_the_natural_size() {
    assert_eq!(resolve_axis(Length::Shrink, 123, 0, 640), 123);
    assert_eq!(resolve_axis(Length::Shrink, 9000, 0, 640), 640);
}

#[test]
fn fill_portion_alone_falls_back_to_shrink() {
    // A leaf resolving its own portion without sibling context has no
    // well-defined share: it takes its natural size.
    assert_eq!(resolve_axis(Length::FillPortion(7), 40, 0, 1000), 40);
}

#[test]
fn limits_with_minimum_above_maximum_are_repaired() {
    let l = Limits::new(500, 700, 200, 300);
    assert_eq!(l.min_width, 200);
    assert_eq!(l.min_height, 300);
    assert_eq!(l.max_width, 200);
    assert_eq!(l.max_height, 300);
}

#[test]
fn atomic_leaf_resolves_against_limits() {
    let l = Limits::loose(800, 600);
    let r = atomic(Point { x: 3, y: 4 }, &l, Length::Fixed(150), Length::Fill);
    assert_eq!(r.x, 3);
    assert_eq!(r.y, 4);
    assert_eq!(r.width, 150);
    assert_eq!(r.height, 600);
}

#[test]
fn portions_divide_a_row_of_300() {
    // Portions (1, 2) inside a 300-unit span resolve to (100, 200).
    let shares = distribute(300, &vec![1, 2]);
    assert_eq!(shares, vec![100, 200]);
}

#[test]
fn portions_round_down() {
    let shares = distribute(10, &vec![1, 1, 1]);
    assert_eq!(shares, vec![3, 3, 3]);
}

#[test]
fn portions_of_zero_get_nothing() {
    let shares = distribute(300, &vec![0, 0]);
    assert_eq!(shares, vec![0, 0]);
    let shares = distribute(300, &vec![0, 3]);
    assert_eq!(shares, vec![0, 300]);
}

#[test]
fn padded_wraps_a_child_with_margins() {
    // Child natural size (40, 20) with padding 10 on every side: the
    // outer box is (60, 40) and the child is placed at offset (10, 10).
    let l = Limits::loose(1000, 1000);
    let r = padded(
        Point { x: 0, y: 0 },
        &l,
        Length::Shrink,
        Length::Shrink,
        Padding::uniform(10),
        Size { width: 40, height: 20 },
    );
    assert_eq!(r.bounds.width, 60);
    assert_eq!(r.bounds.height, 40);
    assert_eq!(r.content.x, 10);
    assert_eq!(r.content.y, 10);
    assert_eq!(r.content.width, 40);
    assert_eq!(r.content.height, 20);
}

#[test]
fn padded_offsets_follow_the_origin() {
    let l = Limits::loose(1000, 1000);
    let r = padded(
        Point { x: 100, y: 200 },
        &l,
        Length::Shrink,
        Length::Shrink,
        Padding::uniform(10),
        Size { width: 40, height: 20 },
    );
    assert_eq!(r.bounds.x, 100);
    assert_eq!(r.bounds.y, 200);
    assert_eq!(r.content.x, 110);
    assert_eq!(r.content.y, 210);
}

#[test]
fn padding_beyond_available_space_clamps_to_zero() {
    // Padding larger than the whole span: the inner limits clamp to zero
    // instead of going negative, and the child never leaves the outer box.
    let l = Limits::loose(5, 5);
    let r = padded(
        Point { x: 0, y: 0 },
        &l,
        Length::Shrink,
        Length::Shrink,
        Padding::uniform(10),
        Size { width: 40, height: 20 },
    );
    assert_eq!(r.content.width, 0);
    assert_eq!(r.content.height, 0);
    assert!(r.bounds.width <= 5);
    assert!(r.bounds.height <= 5);
    assert!(r.content.x <= r.bounds.x + r.bounds.width);
    assert!(r.content.y <= r.bounds.y + r.bounds.height);
}

#[test]
fn padded_outer_box_obeys_the_size_policy() {
    // The size policy governs the outer box, not the content box.
    let l = Limits::loose(1000, 1000);
    let r = padded(
        Point { x: 0, y: 0 },
        &l,
        Length::Fixed(200),
        Length::Fill,
        Padding::uniform(10),
        Size { width: 40, height: 20 },
    );
    assert_eq!(r.bounds.width, 200);
    assert_eq!(r.bounds.height, 1000);
}
