//! The sidebar container: an ordered sequence of sidebar entries that fans
//! layout, paint, event dispatch and state-tree operations out to them.

use vstd::prelude::*;

use vstd::arithmetic::mul::lemma_mul_inequality;

use crate::event::{Cursor, Event, EventStatus};
use crate::geometry::{clamp_u32, sub_floor, sub_floor_spec, Point, Rect};
use crate::layout::{
    distribute, padded_outer_axis_spec, padded_spec, portion_share_spec, resolve_axis,
    resolve_axis_spec, Length, Limits, PaddedLayout, Sizing,
};
use crate::paint::{Primitive, Quad};
use crate::theme::Theme;
use crate::tree::{Tag, Tree};
use crate::widgets::sidebar_item::{resolve_spec, Label, SideBarItem, Status};

verus! {

/// The resolved visual attributes of the sidebar frame itself. The frame
/// draws nothing of its own today; the entries carry all the pixels.
#[derive(Clone, Copy, Debug, PartialEq, Eq, Structural)]
pub struct Style {}

/// A sidebar: a vertical sequence of labeled entries. Its own size policy
/// is independent of its children's; every other operation is delegated
/// to the entries in order.
pub struct SideBar<M> {
    pub width: Length,
    pub height: Length,
    pub panels: Vec<SideBarItem<M>>,
}

impl<M> SideBar<M> {
    /// A sidebar holding a single entry around the given label.
    pub fn new(label: Label) -> (s: Self)
        ensures
            s.width == Length::Shrink,
            s.height == Length::Shrink,
            s.panels@.len() == 1,
            s.panels@[0] == (SideBarItem::<M> {
                width: Length::Shrink,
                height: Length::Shrink,
                border_radius: 0,
                label,
                padding: (crate::layout::Padding { top: 5, right: 5, bottom: 5, left: 5 }),
                on_press: None,
                class: crate::widgets::sidebar_item::Class::Themed,
            }),
    {
        let panel = SideBarItem::new(label);
        let mut panels: Vec<SideBarItem<M>> = Vec::new();
        panels.push(panel);
        SideBar { width: Length::Shrink, height: Length::Shrink, panels }
    }

    /// Append one entry to the end of the sidebar.
    pub fn push(self, panel: SideBarItem<M>) -> (s: Self)
        ensures
            s.width == self.width,
            s.height == self.height,
            s.panels@ == self.panels@.push(panel),
    {
        let mut panels = self.panels;
        panels.push(panel);
        SideBar { width: self.width, height: self.height, panels }
    }

    /// Set the height policy.
    pub fn height(self, height: Length) -> (s: Self)
        ensures
            s.width == self.width,
            s.height == height,
            s.panels@ == self.panels@,
    {
        SideBar { height, ..self }
    }

    /// Set the width policy.
    pub fn width(self, width: Length) -> (s: Self)
        ensures
            s.width == width,
            s.height == self.height,
            s.panels@ == self.panels@,
    {
        SideBar { width, ..self }
    }

    /// The size policy the sidebar reports to its container.
    pub fn size(&self) -> (s: Sizing)
        ensures
            s == (Sizing { width: self.width, height: self.height }),
    {
        Sizing { width: self.width, height: self.height }
    }

    /// The fresh state row for the sidebar's entries: one interactive
    /// entry per panel, each starting `Inactive`.
    pub fn children(&self) -> (trees: Vec<Tree>)
        ensures
            trees@.len() == self.panels@.len(),
            forall|i: int|
                0 <= i < trees@.len() ==> trees@[i] == (Tree {
                    tag: Tag::Interactive,
                    status: Status::Inactive,
                }),
    {
        let mut trees: Vec<Tree> = Vec::new();
        let mut i: usize = 0;
        while i < self.panels.len()
            invariant
                i <= self.panels@.len(),
                trees@.len() == i,
                forall|j: int|
                    0 <= j < i ==> trees@[j] == (Tree {
                        tag: Tag::Interactive,
                        status: Status::Inactive,
                    }),
            decreases self.panels@.len() - i,
        {
            trees.push(Tree { tag: self.panels[i].tag(), status: self.panels[i].state() });
            i = i + 1;
        }
        trees
    }
}

/// Whether a size policy claims a share of the containing span (rather
/// than keeping a size of its own).
pub open spec fn is_portion_spec(policy: Length) -> bool {
    policy is Fill || policy is FillPortion
}

/// Whether a size policy claims a share of the containing span.
pub fn is_portion(policy: Length) -> (b: bool)
    ensures
        b == is_portion_spec(policy),
{
    match policy {
        Length::Fill | Length::FillPortion(_) => true,
        _ => false,
    }
}

/// The sibling portion a height policy contributes to the division:
/// `Fill` counts as one share, and a policy that keeps its own size
/// contributes none.
pub open spec fn portion_of_spec(policy: Length) -> u16 {
    match policy {
        Length::Fill => 1,
        Length::FillPortion(n) => n,
        _ => 0,
    }
}

/// The sibling portion a height policy contributes.
pub fn portion_of(policy: Length) -> (p: u16)
    ensures
        p == portion_of_spec(policy),
{
    match policy {
        Length::Fill => 1,
        Length::FillPortion(n) => n,
        _ => 0,
    }
}

/// The height one entry keeps for itself when it is no portion: its padded
/// outer height, resolved loosely under the column's height.
pub open spec fn entry_slot_height_spec<M>(item: SideBarItem<M>, max_h: int) -> int {
    padded_outer_axis_spec(
        item.height,
        item.label.natural.height as int,
        0,
        max_h,
        item.padding.vertical_spec(),
    )
}

/// The sibling portions of a column, entry by entry.
pub open spec fn portions_of_spec<M>(panels: Seq<SideBarItem<M>>) -> Seq<u16> {
    Seq::new(panels.len(), |i: int| portion_of_spec(panels[i].height))
}

/// The column span the non-portion entries keep for themselves.
pub open spec fn fixed_heights_spec<M>(panels: Seq<SideBarItem<M>>, max_h: int) -> int
    decreases panels.len(),
{
    if panels.len() == 0 {
        0
    } else {
        fixed_heights_spec(panels.drop_last(), max_h) + if is_portion_spec(panels.last().height) {
            0
        } else {
            entry_slot_height_spec(panels.last(), max_h)
        }
    }
}

/// The width one entry would keep for itself: its padded outer width,
/// resolved loosely under the column's width. Entries whose width is a
/// portion (`Fill`, `FillPortion`) stretch to whatever the column settles
/// on and contribute no width of their own.
pub open spec fn entry_slot_width_spec<M>(item: SideBarItem<M>, max_w: int) -> int {
    if is_portion_spec(item.width) {
        0
    } else {
        padded_outer_axis_spec(
            item.width,
            item.label.natural.width as int,
            0,
            max_w,
            item.padding.horizontal_spec(),
        )
    }
}

/// The natural width of the column's content: the widest entry among
/// those that keep a width of their own.
pub open spec fn content_width_spec<M>(panels: Seq<SideBarItem<M>>, max_w: int) -> int
    decreases panels.len(),
{
    if panels.len() == 0 {
        0
    } else {
        let rest = content_width_spec(panels.drop_last(), max_w);
        let last = entry_slot_width_spec(panels.last(), max_w);
        if last > rest {
            last
        } else {
            rest
        }
    }
}

/// The column's own resolved width: its width policy over the content's
/// natural width.
pub open spec fn column_width_spec<M>(
    panels: Seq<SideBarItem<M>>,
    width: Length,
    limits: Limits,
) -> int {
    resolve_axis_spec(
        width,
        content_width_spec(panels, limits.max_width as int),
        limits.min_width as int,
        limits.max_width as int,
    )
}

/// The column's own resolved height: its height policy over the content's
/// natural height, which is the span the non-portion entries keep (portion
/// entries stretch and contribute no height of their own).
pub open spec fn column_height_spec<M>(
    panels: Seq<SideBarItem<M>>,
    height: Length,
    limits: Limits,
) -> int {
    resolve_axis_spec(
        height,
        fixed_heights_spec(panels, limits.max_height as int),
        limits.min_height as int,
        limits.max_height as int,
    )
}

/// The part of the column's resolved span left for the portion entries to
/// divide: zero when the non-portion entries already claim everything.
pub open spec fn leftover_spec<M>(panels: Seq<SideBarItem<M>>, max_h: int, span: int) -> int {
    sub_floor_spec(span, fixed_heights_spec(panels, max_h))
}

/// The column height entry `i` resolves to: its proportional share of the
/// leftover of the column's resolved span if its policy is a portion, its
/// own slot height otherwise.
pub open spec fn entry_height_spec<M>(
    panels: Seq<SideBarItem<M>>,
    max_h: int,
    span: int,
    i: int,
) -> int {
    if is_portion_spec(panels[i].height) {
        portion_share_spec(leftover_spec(panels, max_h, span), portions_of_spec(panels), i)
    } else {
        entry_slot_height_spec(panels[i], max_h)
    }
}

/// The constraint the column resolves entry `i` against: the full column
/// width, and the entry's computed height — exact (an effective `Fixed`
/// constraint) for portion entries, loose for the others.
pub open spec fn entry_limits_spec<M>(
    panels: Seq<SideBarItem<M>>,
    own_w: int,
    max_h: int,
    span: int,
    i: int,
) -> Limits {
    Limits {
        min_width: 0,
        min_height: if is_portion_spec(panels[i].height) {
            entry_height_spec(panels, max_h, span, i) as u32
        } else {
            0
        },
        max_width: own_w as u32,
        max_height: entry_height_spec(panels, max_h, span, i) as u32,
    }
}

/// Where entry `i` starts vertically: the column's origin plus the heights
/// of the entries before it.
pub open spec fn entry_y_spec<M>(
    panels: Seq<SideBarItem<M>>,
    max_h: int,
    span: int,
    origin_y: int,
    i: int,
) -> int
    decreases i,
{
    if i <= 0 {
        origin_y
    } else {
        entry_y_spec(panels, max_h, span, origin_y, i - 1) + entry_height_spec(
            panels,
            max_h,
            span,
            i - 1,
        )
    }
}

/// A non-portion entry, laid out loosely inside the slot the column
/// computed from its own natural height, resolves to exactly that slot.
proof fn lemma_entry_fills_slot(policy: Length, natural: int, pad: int, max_h: int)
    requires
        !is_portion_spec(policy),
        0 <= natural,
        0 <= pad,
        0 <= max_h,
    ensures
        ({
            let slot = padded_outer_axis_spec(policy, natural, 0, max_h, pad);
            padded_outer_axis_spec(policy, natural, 0, slot, pad) == slot
        }),
{
}

/// The position of the first entry, from `i` on, that captures the event —
/// the entry dispatch stops at. `None` when no entry captures.
pub open spec fn capture_index_spec<M>(
    panels: Seq<SideBarItem<M>>,
    trees: Seq<Tree>,
    event: Event,
    boxes: Seq<Rect>,
    cursor: Cursor,
    i: int,
) -> Option<int>
    decreases panels.len() - i,
{
    if i < 0 || i >= panels.len() {
        None
    } else if panels[i].captures_spec(trees[i].status, event, boxes[i], cursor) {
        Some(i)
    } else {
        capture_index_spec(panels, trees, event, boxes, cursor, i + 1)
    }
}

impl<M: Copy> SideBar<M> {
    /// Dispatch one raw event into the sidebar: the entries see it in
    /// order, each at its own resolved bounds, and the first one that
    /// captures stops the traversal. At most one entry per event captures,
    /// turns `Active` and emits its action; every other entry's state is
    /// left untouched.
    pub fn on_event(
        &self,
        trees: &mut Vec<Tree>,
        event: Event,
        boxes: &Vec<Rect>,
        cursor: Cursor,
    ) -> (r: (EventStatus, Option<M>))
        requires
            old(trees)@.len() == self.panels@.len(),
            boxes@.len() == self.panels@.len(),
        ensures
            ({
                let cap = capture_index_spec(self.panels@, old(trees)@, event, boxes@, cursor, 0);
                match cap {
                    Some(j) => {
                        &&& r.0 == EventStatus::Captured
                        &&& r.1 == self.panels@[j].action_spec()
                        &&& final(trees)@ == old(trees)@.update(
                            j,
                            Tree { tag: old(trees)@[j].tag, status: Status::Active },
                        )
                    },
                    None => {
                        &&& r.0 == EventStatus::Ignored
                        &&& r.1 is None
                        &&& final(trees)@ == old(trees)@
                    },
                }
            }),
    {
        let ghost panels_g = self.panels@;
        let ghost trees0 = trees@;
        let mut i: usize = 0;
        while i < self.panels.len()
            invariant
                self.panels@ == panels_g,
                trees0 == old(trees)@,
                trees@ == trees0,
                trees0.len() == panels_g.len(),
                boxes@.len() == panels_g.len(),
                i <= panels_g.len(),
                capture_index_spec(panels_g, trees0, event, boxes@, cursor, 0)
                    == capture_index_spec(panels_g, trees0, event, boxes@, cursor, i as int),
            decreases panels_g.len() - i,
        {
            let mut entry_tree = trees[i];
            let (status, action) = self.panels[i].on_event(&mut entry_tree, event, &boxes[i], cursor);
            match status {
                EventStatus::Captured => {
                    proof {
                        assert(capture_index_spec(panels_g, trees0, event, boxes@, cursor, i as int)
                            == Some(i as int));
                    }
                    trees.set(i, entry_tree);
                    return (EventStatus::Captured, action);
                },
                EventStatus::Ignored => {},
            }
            i = i + 1;
        }
        (EventStatus::Ignored, None)
    }
}

/// The resolved geometry of a sidebar for one frame: its own box, and one
/// padded box per entry, stacked top to bottom inside it.
pub struct SideBarLayout {
    pub bounds: Rect,
    pub items: Vec<PaddedLayout>,
}

impl<M> SideBar<M> {
    /// Lay the column out. The sidebar's own box resolves its declared
    /// size policy against the limits, independently of its children: its
    /// natural width is the widest entry that keeps a width of its own,
    /// its natural height the span those entries' heights claim together.
    /// The resolved vertical span is then divided among the entries —
    /// every entry whose height keeps its own size (`Fixed`, `Shrink`)
    /// takes its natural slot first, and the span left over is divided
    /// among the portion entries (`Fill`, `FillPortion`) in proportion,
    /// each then resolved against an effective exact constraint equal to
    /// its share. Every entry spans the full resolved column width.
    pub fn layout(&self, origin: Point, limits: &Limits) -> (r: SideBarLayout)
        requires
            limits.wf(),
            self.panels@.len() <= u32::MAX,
            origin.x + limits.max_width <= u32::MAX,
            origin.y + self.panels@.len() * limits.max_height <= u32::MAX,
        ensures
            r.bounds == (Rect {
                x: origin.x,
                y: origin.y,
                width: column_width_spec(self.panels@, self.width, *limits) as u32,
                height: column_height_spec(self.panels@, self.height, *limits) as u32,
            }),
            r.items@.len() == self.panels@.len(),
            forall|i: int|
                0 <= i < self.panels@.len() ==> #[trigger] r.items@[i] == padded_spec(
                    (Point {
                        x: origin.x,
                        y: entry_y_spec(
                            self.panels@,
                            limits.max_height as int,
                            column_height_spec(self.panels@, self.height, *limits),
                            origin.y as int,
                            i,
                        ) as u32,
                    }),
                    entry_limits_spec(
                        self.panels@,
                        column_width_spec(self.panels@, self.width, *limits),
                        limits.max_height as int,
                        column_height_spec(self.panels@, self.height, *limits),
                        i,
                    ),
                    self.panels@[i].width,
                    self.panels@[i].height,
                    self.panels@[i].padding,
                    self.panels@[i].label.natural,
                ),
            forall|i: int|
                0 <= i < self.panels@.len() ==> #[trigger] r.items@[i].bounds.height
                    == entry_height_spec(
                    self.panels@,
                    limits.max_height as int,
                    column_height_spec(self.panels@, self.height, *limits),
                    i,
                ),
    {
        let ghost panels_g = self.panels@;
        let n = self.panels.len();
        let max_w = limits.max_width;
        let max_h = limits.max_height;

        // First pass: collect the sibling portions, the span the
        // non-portion entries keep for themselves, and the widest entry
        // that keeps a width of its own.
        let mut portions: Vec<u16> = Vec::new();
        let mut fixed: u32 = 0;
        let mut widest: u32 = 0;
        let mut i: usize = 0;
        while i < n
            invariant
                panels_g == self.panels@,
                n == panels_g.len() <= u32::MAX,
                max_w == limits.max_width,
                max_h == limits.max_height,
                origin.y + n * max_h <= u32::MAX,
                i <= n,
                portions@.len() == i,
                forall|j: int|
                    0 <= j < i ==> portions@[j] == portion_of_spec(panels_g[j].height),
                fixed == fixed_heights_spec(panels_g.take(i as int), max_h as int),
                fixed <= i * max_h,
                widest == content_width_spec(panels_g.take(i as int), max_w as int),
                widest <= max_w,
            decreases n - i,
        {
            let p = &self.panels[i];
            portions.push(portion_of(p.height));
            proof {
                assert(panels_g.take(i + 1).drop_last() =~= panels_g.take(i as int));
                assert(panels_g.take(i + 1).last() == panels_g[i as int]);
                lemma_mul_inequality(i + 1, n as int, max_h as int);
                assert((i + 1) * max_h == i * max_h + max_h) by (nonlinear_arith);
            }
            if !is_portion(p.height) {
                let pad_v: u32 = p.padding.top as u32 + p.padding.bottom as u32;
                let child_h = clamp_u32(p.label.natural.height, 0, sub_floor(max_h, pad_v));
                let slot = resolve_axis(p.height, child_h + pad_v, 0, max_h);
                fixed = fixed + slot;
            }
            if !is_portion(p.width) {
                let pad_w: u32 = p.padding.left as u32 + p.padding.right as u32;
                let child_w = clamp_u32(p.label.natural.width, 0, sub_floor(max_w, pad_w));
                let slot_w = resolve_axis(p.width, child_w + pad_w, 0, max_w);
                if slot_w > widest {
                    widest = slot_w;
                }
            }
            i = i + 1;
        }
        proof {
            assert(panels_g.take(n as int) =~= panels_g);
            assert(portions@ =~= portions_of_spec(panels_g));
        }

        // The column's own box: its size policy, resolved independently of
        // the children over the content's natural extent.
        let own_w = resolve_axis(self.width, widest, limits.min_width, limits.max_width);
        let own_h = resolve_axis(self.height, fixed, limits.min_height, limits.max_height);

        // Second pass: divide what the non-portion entries leave of the
        // resolved span among the portion entries.
        let leftover = sub_floor(own_h, fixed);
        let shares = distribute(leftover, &portions);

        // Third pass: resolve every entry inside its slot or share,
        // stacking top to bottom.
        let mut items: Vec<PaddedLayout> = Vec::new();
        let mut y: u32 = origin.y;
        let mut i: usize = 0;
        while i < n
            invariant
                panels_g == self.panels@,
                n == panels_g.len() <= u32::MAX,
                max_w == limits.max_width,
                max_h == limits.max_height,
                limits.wf(),
                origin.x + max_w <= u32::MAX,
                origin.y + n * max_h <= u32::MAX,
                own_w == column_width_spec(panels_g, self.width, *limits),
                own_w <= max_w,
                own_h == column_height_spec(panels_g, self.height, *limits),
                own_h <= max_h,
                i <= n,
                shares@.len() == n,
                forall|j: int|
                    0 <= j < n ==> shares@[j] == portion_share_spec(
                        leftover_spec(panels_g, max_h as int, own_h as int),
                        portions_of_spec(panels_g),
                        j,
                    ),
                forall|j: int| 0 <= j < n ==> shares@[j] <= own_h,
                items@.len() == i,
                forall|j: int|
                    0 <= j < i ==> #[trigger] items@[j] == padded_spec(
                        (Point {
                            x: origin.x,
                            y: entry_y_spec(
                                panels_g,
                                max_h as int,
                                own_h as int,
                                origin.y as int,
                                j,
                            ) as u32,
                        }),
                        entry_limits_spec(panels_g, own_w as int, max_h as int, own_h as int, j),
                        panels_g[j].width,
                        panels_g[j].height,
                        panels_g[j].padding,
                        panels_g[j].label.natural,
                    ),
                forall|j: int|
                    0 <= j < i ==> #[trigger] items@[j].bounds.height == entry_height_spec(
                        panels_g,
                        max_h as int,
                        own_h as int,
                        j,
                    ),
                y == entry_y_spec(panels_g, max_h as int, own_h as int, origin.y as int, i as int),
                origin.y <= y,
                y <= origin.y + i * max_h,
            decreases n - i,
        {
            let p = &self.panels[i];
            let h: u32;
            let lo_h: u32;
            if is_portion(p.height) {
                h = shares[i];
                lo_h = h;
            } else {
                let pad_v: u32 = p.padding.top as u32 + p.padding.bottom as u32;
                let child_h = clamp_u32(p.label.natural.height, 0, sub_floor(max_h, pad_v));
                h = resolve_axis(p.height, child_h + pad_v, 0, max_h);
                lo_h = 0;
                proof {
                    lemma_entry_fills_slot(
                        p.height,
                        p.label.natural.height as int,
                        p.padding.vertical_spec(),
                        max_h as int,
                    );
                }
            }
            proof {
                assert(h == entry_height_spec(panels_g, max_h as int, own_h as int, i as int));
                lemma_mul_inequality(i + 1, n as int, max_h as int);
                assert((i + 1) * max_h == i * max_h + max_h) by (nonlinear_arith);
            }
            let lims = Limits { min_width: 0, min_height: lo_h, max_width: own_w, max_height: h };
            let node = p.layout(Point { x: origin.x, y }, &lims);
            proof {
                assert(node.bounds.height == h);
            }
            items.push(node);
            y = y + node.bounds.height;
            i = i + 1;
        }
        SideBarLayout {
            bounds: Rect { x: origin.x, y: origin.y, width: own_w, height: own_h },
            items,
        }
    }

    /// Paint the sidebar: fan paint out to the entries in sequence order.
    /// Each entry contributes its quad and then its delegated label paint,
    /// so earlier entries' pixels lie under later ones and every label
    /// lies on top of its own entry.
    pub fn draw(
        &self,
        trees: &Vec<Tree>,
        theme: &Theme,
        layout: &SideBarLayout,
        cursor: Cursor,
    ) -> (prims: Vec<Primitive>)
        requires
            trees@.len() == self.panels@.len(),
            layout.items@.len() == self.panels@.len(),
        ensures
            prims@.len() == 2 * self.panels@.len(),
            forall|i: int|
                0 <= i < self.panels@.len() ==> {
                    &&& prims@[2 * i] == Primitive::Quad(
                        Quad {
                            bounds: (#[trigger] layout.items@[i]).bounds,
                            border_radius: self.panels@[i].border_radius,
                            background: resolve_spec(
                                *theme,
                                self.panels@[i].class,
                                trees@[i].status.after_hover_spec(
                                    cursor.is_over_spec(layout.items@[i].bounds),
                                ),
                            ).background,
                        },
                    )
                    &&& prims@[2 * i + 1] == (Primitive::Content {
                        bounds: layout.items@[i].content,
                    })
                },
    {
        let mut prims: Vec<Primitive> = Vec::new();
        let mut i: usize = 0;
        while i < self.panels.len()
            invariant
                trees@.len() == self.panels@.len(),
                layout.items@.len() == self.panels@.len(),
                i <= self.panels@.len(),
                prims@.len() == 2 * i,
                forall|j: int|
                    0 <= j < i ==> {
                        &&& prims@[2 * j] == Primitive::Quad(
                            Quad {
                                bounds: (#[trigger] layout.items@[j]).bounds,
                                border_radius: self.panels@[j].border_radius,
                                background: resolve_spec(
                                    *theme,
                                    self.panels@[j].class,
                                    trees@[j].status.after_hover_spec(
                                        cursor.is_over_spec(layout.items@[j].bounds),
                                    ),
                                ).background,
                            },
                        )
                        &&& prims@[2 * j + 1] == (Primitive::Content {
                            bounds: layout.items@[j].content,
                        })
                    },
            decreases self.panels@.len() - i,
        {
            let entry_prims = self.panels[i].draw(&trees[i], theme, &layout.items[i], cursor);
            prims.push(entry_prims[0]);
            prims.push(entry_prims[1]);
            i = i + 1;
        }
        prims
    }
}

/// Event capture uniqueness: when exactly one entry's bounds contain the
/// press point and that entry would capture it, dispatch stops at exactly
/// that entry, and the action it emits is that entry's configured payload
/// (which exists: capturing requires one).
pub proof fn lemma_event_capture_unique<M>(
    panels: Seq<SideBarItem<M>>,
    trees: Seq<Tree>,
    event: Event,
    boxes: Seq<Rect>,
    cursor: Cursor,
    j: int,
)
    requires
        panels.len() == trees.len(),
        panels.len() == boxes.len(),
        0 <= j < panels.len(),
        forall|i: int| 0 <= i < panels.len() && i != j ==> !cursor.is_over_spec(boxes[i]),
        panels[j].captures_spec(trees[j].status, event, boxes[j], cursor),
    ensures
        capture_index_spec(panels, trees, event, boxes, cursor, 0) == Some(j),
        panels[j].action_spec() is Some,
{
    lemma_no_capture_before(panels, trees, event, boxes, cursor, j, 0);
}

/// Helper for the uniqueness law: from any position at or before the one
/// hit entry, the first capture is that entry.
proof fn lemma_no_capture_before<M>(
    panels: Seq<SideBarItem<M>>,
    trees: Seq<Tree>,
    event: Event,
    boxes: Seq<Rect>,
    cursor: Cursor,
    j: int,
    i: int,
)
    requires
        panels.len() == trees.len(),
        panels.len() == boxes.len(),
        0 <= i <= j < panels.len(),
        forall|k: int| 0 <= k < panels.len() && k != j ==> !cursor.is_over_spec(boxes[k]),
        panels[j].captures_spec(trees[j].status, event, boxes[j], cursor),
    ensures
        capture_index_spec(panels, trees, event, boxes, cursor, i) == Some(j),
    decreases j - i,
{
    if i < j {
        lemma_no_capture_before(panels, trees, event, boxes, cursor, j, i + 1);
    }
}

} // verus!
