//! Tests for the sidebar entry and container: interaction state machine,
//! event dispatch, state persistence, styling and column layout.

use iced_nova::event::{Cursor, Event, EventStatus, Interaction};
use iced_nova::geometry::{Point, Rect, Size};
use iced_nova::layout::{Length, Limits, Padding, Sizing};
use iced_nova::paint::Primitive;
use iced_nova::theme::{Color, ColorGroup, Pair, Theme};
use iced_nova::tree::{diff_children, Tag, Tree};
use iced_nova::widgets::sidebar::SideBar;
use iced_nova::widgets::sidebar_item::{
    load_color, resolve, Class, Label, OnPress, SideBarItem, Status, StatusStyles, Style,
};

fn pair(r: u8, g: u8, b: u8) -> Pair {
    Pair { color: Color::rgb(r, g, b), text: Color::rgb(0, 0, 0) }
}

fn group(base: Pair, strong: Pair, weak: Pair) -> ColorGroup {
    ColorGroup { base, strong, weak }
}

fn test_theme() -> Theme {
    Theme {
        background: group(pair(10, 0, 0), pair(11, 0, 0), pair(12, 0, 0)),
        primary: group(pair(20, 0, 0), pair(21, 0, 0), pair(22, 0, 0)),
        secondary: group(pair(30, 0, 0), pair(31, 0, 0), pair(32, 0, 0)),
        danger: group(pair(40, 0, 0), pair(41, 0, 0), pair(42, 0, 0)),
        success: group(pair(50, 0, 0), pair(51, 0, 0), pair(52, 0, 0)),
    }
}

fn label(w: u32, h: u32) -> Label {
    Label { natural: Size { width: w, height: h } }
}

fn cursor_at(x: u32, y: u32) -> Cursor {
    Cursor::Available(Point { x, y })
}

#[test]
fn on_press_hands_out_the_stored_message() {
    let payload: OnPress<u32> = OnPress::Direct(9);
    assert_eq!(payload.get(), 9);
}

#[test]
fn fresh_state_defaults_to_inactive() {
    assert_eq!(Status::default(), Status::Inactive);
    let item: SideBarItem<u32> = SideBarItem::new(label(1, 1));
    assert_eq!(item.state(), Status::Inactive);
    assert_eq!(item.tag(), iced_nova::tree::Tag::Interactive);
}

#[test]
fn item_builder_sets_every_field() {
    let item: SideBarItem<u32> = SideBarItem::new(label(40, 20))
        .width(Length::Fill)
        .height(Length::Fixed(30))
        .border_radius(8)
        .padding(Padding::uniform(2))
        .on_press(7);
    assert_eq!(item.width, Length::Fill);
    assert_eq!(item.height, Length::Fixed(30));
    assert_eq!(item.border_radius, 8);
    assert_eq!(item.padding, Padding::uniform(2));
    assert_eq!(item.label.natural, Size { width: 40, height: 20 });
    // size() reports the declared policy on both axes.
    assert_eq!(item.size(), Sizing { width: Length::Fill, height: Length::Fixed(30) });
}

#[test]
fn item_layout_pads_its_label() {
    let item: SideBarItem<u32> = SideBarItem::new(label(40, 20)).padding(Padding::uniform(10));
    let l = Limits::loose(1000, 1000);
    let r = item.layout(Point { x: 0, y: 0 }, &l);
    assert_eq!(r.bounds.width, 60);
    assert_eq!(r.bounds.height, 40);
    assert_eq!(r.content.x, 10);
    assert_eq!(r.content.y, 10);
}

#[test]
fn hover_transitions_follow_the_cursor() {
    assert_eq!(Status::Inactive.after_hover(true), Status::Hovered);
    assert_eq!(Status::Inactive.after_hover(false), Status::Inactive);
    assert_eq!(Status::Hovered.after_hover(false), Status::Inactive);
    assert_eq!(Status::Hovered.after_hover(true), Status::Hovered);
    assert_eq!(Status::Active.after_hover(false), Status::Active);
    assert_eq!(Status::Disabled.after_hover(true), Status::Disabled);
}

#[test]
fn press_inside_captures_and_emits_once() {
    let item: SideBarItem<u32> = SideBarItem::new(label(40, 20)).on_press(42);
    let bounds = Rect { x: 0, y: 0, width: 60, height: 30 };
    let mut tree = Tree { tag: Tag::Interactive, status: Status::Inactive };
    let (status, action) =
        item.on_event(&mut tree, Event::MouseLeftPressed, &bounds, cursor_at(5, 5));
    assert_eq!(status, EventStatus::Captured);
    assert_eq!(action, Some(42));
    assert_eq!(tree.status, Status::Active);
}

#[test]
fn touch_press_is_a_press() {
    let item: SideBarItem<u32> = SideBarItem::new(label(40, 20)).on_press(1);
    let bounds = Rect { x: 0, y: 0, width: 60, height: 30 };
    let mut tree = Tree { tag: Tag::Interactive, status: Status::Hovered };
    let (status, action) = item.on_event(&mut tree, Event::FingerPressed, &bounds, cursor_at(5, 5));
    assert_eq!(status, EventStatus::Captured);
    assert_eq!(action, Some(1));
    assert_eq!(tree.status, Status::Active);
}

#[test]
fn press_outside_is_ignored() {
    let item: SideBarItem<u32> = SideBarItem::new(label(40, 20)).on_press(42);
    let bounds = Rect { x: 0, y: 0, width: 60, height: 30 };
    let mut tree = Tree { tag: Tag::Interactive, status: Status::Inactive };
    let (status, action) =
        item.on_event(&mut tree, Event::MouseLeftPressed, &bounds, cursor_at(200, 5));
    assert_eq!(status, EventStatus::Ignored);
    assert_eq!(action, None);
    assert_eq!(tree.status, Status::Inactive);
}

#[test]
fn press_without_action_is_ignored() {
    // A missing action payload is no error: dispatch reports Ignored and
    // no state transition occurs.
    let item: SideBarItem<u32> = SideBarItem::new(label(40, 20));
    let bounds = Rect { x: 0, y: 0, width: 60, height: 30 };
    let mut tree = Tree { tag: Tag::Interactive, status: Status::Inactive };
    let (status, action) =
        item.on_event(&mut tree, Event::MouseLeftPressed, &bounds, cursor_at(5, 5));
    assert_eq!(status, EventStatus::Ignored);
    assert_eq!(action, None);
    assert_eq!(tree.status, Status::Inactive);
}

#[test]
fn non_press_events_are_ignored() {
    let item: SideBarItem<u32> = SideBarItem::new(label(40, 20)).on_press(42);
    let bounds = Rect { x: 0, y: 0, width: 60, height: 30 };
    let mut tree = Tree { tag: Tag::Interactive, status: Status::Hovered };
    let (status, action) = item.on_event(&mut tree, Event::CursorMoved, &bounds, cursor_at(5, 5));
    assert_eq!(status, EventStatus::Ignored);
    assert_eq!(action, None);
    assert_eq!(tree.status, Status::Hovered);
}

#[test]
fn disabled_entry_never_activates_or_emits() {
    // Hover and press sequences leave a disabled entry untouched.
    let item: SideBarItem<u32> = SideBarItem::new(label(40, 20)).on_press(42);
    let bounds = Rect { x: 0, y: 0, width: 60, height: 30 };
    let mut tree = Tree { tag: Tag::Interactive, status: Status::Disabled };
    let inputs = [
        (Event::CursorMoved, cursor_at(5, 5)),
        (Event::MouseLeftPressed, cursor_at(5, 5)),
        (Event::FingerPressed, cursor_at(5, 5)),
        (Event::CursorMoved, cursor_at(200, 200)),
        (Event::MouseLeftPressed, cursor_at(5, 5)),
    ];
    for (event, cursor) in inputs {
        let (status, action) = item.on_event(&mut tree, event, &bounds, cursor);
        assert_eq!(status, EventStatus::Ignored);
        assert_eq!(action, None);
        assert_eq!(tree.status, Status::Disabled);
        // The display pass never shows it hovered either.
        assert_eq!(tree.status.after_hover(true), Status::Disabled);
    }
}

#[test]
fn mouse_interaction_points_only_inside() {
    let item: SideBarItem<u32> = SideBarItem::new(label(40, 20));
    let bounds = Rect { x: 0, y: 0, width: 60, height: 30 };
    assert_eq!(item.mouse_interaction(&bounds, cursor_at(5, 5)), Interaction::Pointer);
    assert_eq!(item.mouse_interaction(&bounds, cursor_at(61, 5)), Interaction::Idle);
    assert_eq!(item.mouse_interaction(&bounds, Cursor::Unavailable), Interaction::Idle);
}

#[test]
fn default_catalog_follows_the_status_policy() {
    let theme = test_theme();
    // Active and Inactive take the strong primary pair.
    assert_eq!(load_color(&theme, Status::Active).background, Color { r: 21, g: 0, b: 0, a: 255 });
    assert_eq!(
        load_color(&theme, Status::Inactive).background,
        Color { r: 21, g: 0, b: 0, a: 255 }
    );
    // Hovered takes the strong background.
    assert_eq!(load_color(&theme, Status::Hovered).background, Color { r: 11, g: 0, b: 0, a: 255 });
    // Disabled fades the base style to half opacity.
    assert_eq!(
        load_color(&theme, Status::Disabled).background,
        Color { r: 21, g: 0, b: 0, a: 127 }
    );
}

#[test]
fn custom_class_overrides_the_catalog() {
    let theme = test_theme();
    let styles = StatusStyles {
        active: Style { background: Color { r: 1, g: 1, b: 1, a: 255 } },
        inactive: Style { background: Color { r: 2, g: 2, b: 2, a: 255 } },
        hovered: Style { background: Color { r: 3, g: 3, b: 3, a: 255 } },
        disabled: Style { background: Color { r: 4, g: 4, b: 4, a: 255 } },
    };
    let class = Class::Custom(styles);
    assert_eq!(resolve(&theme, &class, Status::Hovered), styles.hovered);
    assert_eq!(resolve(&theme, &Class::Themed, Status::Hovered), load_color(&theme, Status::Hovered));
}

#[test]
fn item_paints_quad_then_label() {
    let theme = test_theme();
    let item: SideBarItem<u32> = SideBarItem::new(label(40, 20)).border_radius(3);
    let l = Limits::loose(1000, 1000);
    let node = item.layout(Point { x: 0, y: 0 }, &l);
    let tree = Tree { tag: Tag::Interactive, status: Status::Inactive };
    // Cursor inside: the display status is Hovered even though the
    // persisted state is still Inactive.
    let prims = item.draw(&tree, &theme, &node, cursor_at(2, 2));
    assert_eq!(prims.len(), 2);
    match prims[0] {
        Primitive::Quad(q) => {
            assert_eq!(q.bounds, node.bounds);
            assert_eq!(q.border_radius, 3);
            assert_eq!(q.background, load_color(&theme, Status::Hovered).background);
        }
        _ => panic!("expected a quad first"),
    }
    match prims[1] {
        Primitive::Content { bounds } => assert_eq!(bounds, node.content),
        _ => panic!("expected the label paint second"),
    }
}

#[test]
fn sidebar_starts_with_one_panel() {
    let bar: SideBar<u32> = SideBar::new(label(40, 20));
    assert_eq!(bar.panels.len(), 1);
    assert_eq!(bar.width, Length::Shrink);
    assert_eq!(bar.height, Length::Shrink);
    let trees = bar.children();
    assert_eq!(trees.len(), 1);
    assert_eq!(trees[0], Tree { tag: Tag::Interactive, status: Status::Inactive });
}

#[test]
fn sidebar_push_keeps_order() {
    let bar: SideBar<u32> = SideBar::new(label(1, 1))
        .push(SideBarItem::new(label(2, 2)))
        .push(SideBarItem::new(label(3, 3)));
    assert_eq!(bar.panels.len(), 3);
    assert_eq!(bar.panels[2].label.natural, Size { width: 3, height: 3 });
    assert_eq!(bar.children().len(), 3);
}

#[test]
fn sidebar_stacks_entries_top_to_bottom() {
    let bar: SideBar<u32> = SideBar::new(label(40, 20))
        .push(SideBarItem::new(label(40, 30)).padding(Padding::uniform(0)))
        .push(SideBarItem::new(label(40, 50)).padding(Padding::uniform(0)))
        .width(Length::Fill)
        .height(Length::Fill);
    let l = Limits::loose(200, 600);
    let r = bar.layout(Point { x: 0, y: 0 }, &l);
    assert_eq!(r.bounds, Rect { x: 0, y: 0, width: 200, height: 600 });
    assert_eq!(r.items.len(), 3);
    // First entry keeps the default padding of 5 around its 20-unit label.
    assert_eq!(r.items[0].bounds.y, 0);
    assert_eq!(r.items[0].bounds.height, 30);
    assert_eq!(r.items[1].bounds.y, 30);
    assert_eq!(r.items[1].bounds.height, 30);
    assert_eq!(r.items[2].bounds.y, 60);
    assert_eq!(r.items[2].bounds.height, 50);
}

#[test]
fn sidebar_divides_its_span_among_portions() {
    // A 300-unit column divided among portions (1, 2): 100 and 200.
    let bar: SideBar<u32> = SideBar::new(label(0, 0))
        .push(SideBarItem::new(label(0, 0)).padding(Padding::uniform(0)).height(Length::FillPortion(2)));
    // Rebuild the first entry as a portion too.
    let mut panels = bar.panels;
    panels[0] = SideBarItem::new(label(0, 0)).padding(Padding::uniform(0)).height(Length::FillPortion(1));
    let bar = SideBar { width: Length::Fill, height: Length::Fill, panels };
    let l = Limits::loose(100, 300);
    let r = bar.layout(Point { x: 0, y: 0 }, &l);
    assert_eq!(r.items[0].bounds.height, 100);
    assert_eq!(r.items[1].bounds.height, 200);
    assert_eq!(r.items[0].bounds.y, 0);
    assert_eq!(r.items[1].bounds.y, 100);
}

#[test]
fn sidebar_portions_divide_what_fixed_entries_leave() {
    let bar: SideBar<u32> = SideBar::new(label(10, 10))
        .push(SideBarItem::new(label(0, 0)).padding(Padding::uniform(0)).height(Length::Fixed(100)))
        .push(SideBarItem::new(label(0, 0)).padding(Padding::uniform(0)).height(Length::Fill));
    let mut panels = bar.panels;
    panels[0] = SideBarItem::new(label(0, 0)).padding(Padding::uniform(0)).height(Length::Fixed(60));
    let bar = SideBar { width: Length::Fill, height: Length::Fill, panels };
    let l = Limits::loose(100, 300);
    let r = bar.layout(Point { x: 0, y: 0 }, &l);
    assert_eq!(r.items[0].bounds.height, 60);
    assert_eq!(r.items[1].bounds.height, 100);
    // The single Fill entry takes everything the fixed entries left.
    assert_eq!(r.items[2].bounds.height, 140);
}

#[test]
fn sidebar_box_follows_its_own_size_policy() {
    // The container's box resolves its declared policy independently of
    // the children: Shrink sizes to the content, Fixed clamps.
    let bar: SideBar<u32> = SideBar::new(label(40, 20))
        .push(SideBarItem::new(label(70, 30)).padding(Padding::uniform(0)));
    let l = Limits::loose(200, 600);
    let r = bar.layout(Point { x: 0, y: 0 }, &l);
    // Content: the first entry is 50x30 after its default padding of 5,
    // the second 70x30; a Shrink column takes the widest entry and the
    // summed heights.
    assert_eq!(r.bounds, Rect { x: 0, y: 0, width: 70, height: 60 });

    let bar = bar.width(Length::Fixed(50)).height(Length::Fixed(500));
    let r = bar.layout(Point { x: 0, y: 0 }, &l);
    assert_eq!(r.bounds.width, 50);
    assert_eq!(r.bounds.height, 500);

    let bar = bar.width(Length::Fixed(5000));
    let r = bar.layout(Point { x: 0, y: 0 }, &l);
    // A fixed size beyond the limit clamps to it.
    assert_eq!(r.bounds.width, 200);
}

#[test]
fn shrink_sidebar_gives_portions_nothing() {
    // A Shrink column's span is what the non-portion entries claim, so
    // portion entries have nothing left to divide.
    let bar: SideBar<u32> = SideBar::new(label(40, 20))
        .push(SideBarItem::new(label(40, 30)).padding(Padding::uniform(0)).height(Length::Fill));
    let l = Limits::loose(200, 600);
    let r = bar.layout(Point { x: 0, y: 0 }, &l);
    assert_eq!(r.bounds.height, 30);
    assert_eq!(r.items[0].bounds.height, 30);
    assert_eq!(r.items[1].bounds.height, 0);
}

#[test]
fn one_press_captures_exactly_once() {
    // A press inside exactly one entry's bounds: one capture, one action,
    // one state change, whatever the position in the sequence.
    let bar: SideBar<u32> = SideBar::new(label(40, 20))
        .push(SideBarItem::new(label(40, 20)).on_press(2))
        .push(SideBarItem::new(label(40, 20)).on_press(3));
    let boxes = vec![
        Rect { x: 0, y: 0, width: 100, height: 30 },
        Rect { x: 0, y: 30, width: 100, height: 30 },
        Rect { x: 0, y: 60, width: 100, height: 30 },
    ];
    let mut trees = bar.children();
    let (status, action) =
        bar.on_event(&mut trees, Event::MouseLeftPressed, &boxes, cursor_at(50, 45));
    assert_eq!(status, EventStatus::Captured);
    assert_eq!(action, Some(2));
    assert_eq!(trees[0].status, Status::Inactive);
    assert_eq!(trees[1].status, Status::Active);
    assert_eq!(trees[2].status, Status::Inactive);
}

#[test]
fn press_outside_every_entry_is_ignored() {
    let bar: SideBar<u32> = SideBar::new(label(40, 20))
        .push(SideBarItem::new(label(40, 20)).on_press(2));
    let boxes = vec![
        Rect { x: 0, y: 0, width: 100, height: 30 },
        Rect { x: 0, y: 30, width: 100, height: 30 },
    ];
    let mut trees = bar.children();
    let (status, action) =
        bar.on_event(&mut trees, Event::MouseLeftPressed, &boxes, cursor_at(500, 500));
    assert_eq!(status, EventStatus::Ignored);
    assert_eq!(action, None);
    assert_eq!(trees[0].status, Status::Inactive);
    assert_eq!(trees[1].status, Status::Inactive);
}

#[test]
fn earlier_entry_wins_when_both_contain_the_point() {
    let bar: SideBar<u32> = SideBar::new(label(40, 20))
        .push(SideBarItem::new(label(40, 20)).on_press(2))
        .push(SideBarItem::new(label(40, 20)).on_press(3));
    // Overlapping boxes: children see the event in order, the first
    // capture stops propagation.
    let boxes = vec![
        Rect { x: 0, y: 0, width: 100, height: 90 },
        Rect { x: 0, y: 0, width: 100, height: 90 },
        Rect { x: 0, y: 0, width: 100, height: 90 },
    ];
    let mut trees = bar.children();
    // The first entry has no action configured, so the second captures.
    let (status, action) =
        bar.on_event(&mut trees, Event::MouseLeftPressed, &boxes, cursor_at(10, 10));
    assert_eq!(status, EventStatus::Captured);
    assert_eq!(action, Some(2));
    assert_eq!(trees[1].status, Status::Active);
    assert_eq!(trees[2].status, Status::Inactive);
}

#[test]
fn state_survives_a_diff_with_unchanged_kinds() {
    let mut trees = vec![
        Tree { tag: Tag::Interactive, status: Status::Active },
        Tree { tag: Tag::Interactive, status: Status::Hovered },
    ];
    diff_children(&mut trees, &vec![Tag::Interactive, Tag::Interactive]);
    assert_eq!(trees[0].status, Status::Active);
    assert_eq!(trees[1].status, Status::Hovered);
}

#[test]
fn state_resets_when_the_kind_changes() {
    let mut trees = vec![
        Tree { tag: Tag::Interactive, status: Status::Active },
        Tree { tag: Tag::Interactive, status: Status::Hovered },
    ];
    diff_children(&mut trees, &vec![Tag::Stateless, Tag::Interactive]);
    assert_eq!(trees[0], Tree { tag: Tag::Stateless, status: Status::Inactive });
    assert_eq!(trees[1].status, Status::Hovered);
}

#[test]
fn diff_grows_and_shrinks_the_row() {
    let mut trees = vec![Tree { tag: Tag::Interactive, status: Status::Active }];
    diff_children(&mut trees, &vec![Tag::Interactive, Tag::Interactive, Tag::Interactive]);
    assert_eq!(trees.len(), 3);
    assert_eq!(trees[0].status, Status::Active);
    assert_eq!(trees[1].status, Status::Inactive);
    diff_children(&mut trees, &vec![]);
    assert_eq!(trees.len(), 0);
}

#[test]
fn theme_switch_changes_paint_but_not_state() {
    let light = test_theme();
    let mut dark = test_theme();
    dark.primary = group(pair(120, 0, 0), pair(121, 0, 0), pair(122, 0, 0));
    let item: SideBarItem<u32> = SideBarItem::new(label(40, 20));
    let l = Limits::loose(1000, 1000);
    let node = item.layout(Point { x: 0, y: 0 }, &l);
    let tree = Tree { tag: Tag::Interactive, status: Status::Active };
    let first = item.draw(&tree, &light, &node, Cursor::Unavailable);
    let second = item.draw(&tree, &dark, &node, Cursor::Unavailable);
    assert_ne!(first[0], second[0]);
    // The persisted state is read-only to paint: it is whatever it was.
    assert_eq!(tree.status, Status::Active);
    match second[0] {
        Primitive::Quad(q) => {
            assert_eq!(q.background, Color { r: 121, g: 0, b: 0, a: 255 })
        }
        _ => panic!("expected a quad"),
    }
}
