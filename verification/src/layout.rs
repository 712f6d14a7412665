//! The layout engine: per-axis size policies, space constraints, and the
//! two composition primitives every component uses — atomic (leaf sizing)
//! and padded (wrap a child, add margins) — plus proportional division of a
//! span among siblings.

use vstd::prelude::*;

use vstd::arithmetic::div_mod::{lemma_div_is_ordered, lemma_div_multiples_vanish};
use vstd::arithmetic::mul::{lemma_mul_inequality, lemma_mul_is_commutative};

use crate::geometry::{
    clamp_spec, clamp_u32, min_spec, min_u32, sub_floor, sub_floor_spec, Point, Rect, Size,
};

verus! {

/// How a component claims space along one axis.
#[derive(Clone, Copy, Debug, PartialEq, Eq, Structural)]
pub enum Length {
    /// Claim the entire available span.
    Fill,
    /// Claim a share of the available span proportional to the portion,
    /// relative to the sibling portions. Meaningful only inside a
    /// portion-aware container; a leaf resolving it in isolation falls back
    /// to `Shrink`.
    FillPortion(u16),
    /// Claim exactly the natural size of the content.
    Shrink,
    /// Claim exactly this many device units, clamped to the allowed range.
    Fixed(u32),
}

/// Four-sided margins around a wrapped child, in device units.
#[derive(Clone, Copy, Debug, PartialEq, Eq, Structural)]
pub struct Padding {
    pub top: u16,
    pub right: u16,
    pub bottom: u16,
    pub left: u16,
}

impl Padding {
    /// Total horizontal padding.
    pub open spec fn horizontal_spec(self) -> int {
        self.left + self.right
    }

    /// Total vertical padding.
    pub open spec fn vertical_spec(self) -> int {
        self.top + self.bottom
    }

    /// Padding with the same amount on every side.
    pub fn uniform(amount: u16) -> (p: Padding)
        ensures
            p == (Padding { top: amount, right: amount, bottom: amount, left: amount }),
    {
        Padding { top: amount, right: amount, bottom: amount, left: amount }
    }
}

/// A component's declared size policy, one [`Length`] per axis: what it
/// reports to the containing layout context before any resolution.
#[derive(Clone, Copy, Debug, PartialEq, Eq, Structural)]
pub struct Sizing {
    pub width: Length,
    pub height: Length,
}

/// The space constraint a component is resolved against: a minimum and a
/// maximum extent per axis.
#[derive(Clone, Copy, Debug, PartialEq, Eq, Structural)]
pub struct Limits {
    pub min_width: u32,
    pub min_height: u32,
    pub max_width: u32,
    pub max_height: u32,
}

impl Limits {
    /// A usable constraint never demands more than it allows.
    pub open spec fn wf(self) -> bool {
        &&& self.min_width <= self.max_width
        &&& self.min_height <= self.max_height
    }

    /// Build a constraint. A minimum above the maximum is an invalid input;
    /// it is clamped down to the maximum rather than propagated, so layout
    /// always has a usable box to work with.
    pub fn new(min_width: u32, min_height: u32, max_width: u32, max_height: u32) -> (l: Limits)
        ensures
            l.wf(),
            l.max_width == max_width,
            l.max_height == max_height,
            l.min_width == min_spec(min_width as int, max_width as int),
            l.min_height == min_spec(min_height as int, max_height as int),
    {
        Limits {
            min_width: min_u32(min_width, max_width),
            min_height: min_u32(min_height, max_height),
            max_width,
            max_height,
        }
    }

    /// A constraint that only bounds from above.
    pub fn loose(max_width: u32, max_height: u32) -> (l: Limits)
        ensures
            l == (Limits { min_width: 0, min_height: 0, max_width, max_height }),
            l.wf(),
    {
        Limits { min_width: 0, min_height: 0, max_width, max_height }
    }
}

/// The resolved extent of one axis: what a size policy claims between `lo`
/// and `hi`, given the content's natural extent on that axis.
pub open spec fn resolve_axis_spec(policy: Length, natural: int, lo: int, hi: int) -> int {
    match policy {
        Length::Fixed(x) => clamp_spec(x as int, lo, hi),
        Length::Shrink => clamp_spec(natural, lo, hi),
        Length::Fill => hi,
        // No sibling context here: a portion has no well-defined share of
        // its own, so it falls back to the natural size, like `Shrink`.
        Length::FillPortion(_) => clamp_spec(natural, lo, hi),
    }
}

/// A resolved extent always lands inside the constraint it was resolved
/// against: this is the invariant every geometry box of a frame enjoys.
pub proof fn lemma_resolved_size_in_constraint(policy: Length, natural: int, lo: int, hi: int)
    requires
        lo <= hi,
    ensures
        lo <= resolve_axis_spec(policy, natural, lo, hi) <= hi,
{
}

/// Resolve one axis of a size policy against a constraint interval.
pub fn resolve_axis(policy: Length, natural: u32, lo: u32, hi: u32) -> (r: u32)
    requires
        lo <= hi,
    ensures
        r == resolve_axis_spec(policy, natural as int, lo as int, hi as int),
        lo <= r <= hi,
{
    match policy {
        Length::Fixed(x) => clamp_u32(x, lo, hi),
        Length::Shrink => clamp_u32(natural, lo, hi),
        Length::Fill => hi,
        Length::FillPortion(_) => clamp_u32(natural, lo, hi),
    }
}

/// The box an atomic (childless) leaf resolves to: its size policy applied
/// per axis with a natural size of zero, at the given origin.
pub open spec fn atomic_spec(origin: Point, limits: Limits, width: Length, height: Length) -> Rect {
    Rect {
        x: origin.x,
        y: origin.y,
        width: resolve_axis_spec(width, 0, limits.min_width as int, limits.max_width as int) as u32,
        height: resolve_axis_spec(
            height,
            0,
            limits.min_height as int,
            limits.max_height as int,
        ) as u32,
    }
}

/// Atomic composition: resolve a leaf's own size policy directly against
/// the given limits. A leaf has no content, so its natural size is zero.
pub fn atomic(origin: Point, limits: &Limits, width: Length, height: Length) -> (r: Rect)
    requires
        limits.wf(),
    ensures
        r == atomic_spec(origin, *limits, width, height),
        limits.min_width <= r.width <= limits.max_width,
        limits.min_height <= r.height <= limits.max_height,
{
    let w = resolve_axis(width, 0, limits.min_width, limits.max_width);
    let h = resolve_axis(height, 0, limits.min_height, limits.max_height);
    Rect { x: origin.x, y: origin.y, width: w, height: h }
}

/// The geometry a padded wrapper resolves to: its own outer box, and the
/// box of the wrapped child inside it.
#[derive(Clone, Copy, Debug, PartialEq, Eq, Structural)]
pub struct PaddedLayout {
    pub bounds: Rect,
    pub content: Rect,
}

impl PaddedLayout {
    /// The child box never leaves the outer box.
    pub open spec fn content_within_bounds(self) -> bool {
        &&& self.bounds.x <= self.content.x
        &&& self.content.x + self.content.width <= self.bounds.x + self.bounds.width
        &&& self.bounds.y <= self.content.y
        &&& self.content.y + self.content.height <= self.bounds.y + self.bounds.height
    }
}

/// One axis of the padded algorithm: the child's resolved extent, between
/// the limits shrunk by the padding on both sides of this axis. If the
/// padding exceeds the available space, the inner limits clamp to zero
/// rather than going negative.
pub open spec fn padded_child_axis_spec(natural: int, lo: int, hi: int, pad: int) -> int {
    clamp_spec(natural, sub_floor_spec(lo, pad), sub_floor_spec(hi, pad))
}

/// One axis of the padded algorithm: the outer extent. The size policy
/// governs the outer box, whose natural size is the child's extent
/// re-expanded by the padding.
pub open spec fn padded_outer_axis_spec(
    policy: Length,
    natural: int,
    lo: int,
    hi: int,
    pad: int,
) -> int {
    resolve_axis_spec(policy, padded_child_axis_spec(natural, lo, hi, pad) + pad, lo, hi)
}

/// The full result of padded composition. The child sits at the padding
/// offset inside the outer box; where the outer box is too small for the
/// padding or the child (an over-constrained wrapper), the child is pushed
/// or cut so that it never leaves the outer box.
pub open spec fn padded_spec(
    origin: Point,
    limits: Limits,
    width: Length,
    height: Length,
    padding: Padding,
    natural: Size,
) -> PaddedLayout {
    let pad_w = padding.horizontal_spec();
    let pad_h = padding.vertical_spec();
    let child_w = padded_child_axis_spec(
        natural.width as int,
        limits.min_width as int,
        limits.max_width as int,
        pad_w,
    );
    let child_h = padded_child_axis_spec(
        natural.height as int,
        limits.min_height as int,
        limits.max_height as int,
        pad_h,
    );
    let outer_w = resolve_axis_spec(
        width,
        child_w + pad_w,
        limits.min_width as int,
        limits.max_width as int,
    );
    let outer_h = resolve_axis_spec(
        height,
        child_h + pad_h,
        limits.min_height as int,
        limits.max_height as int,
    );
    let off_x = min_spec(padding.left as int, outer_w);
    let off_y = min_spec(padding.top as int, outer_h);
    PaddedLayout {
        bounds: Rect { x: origin.x, y: origin.y, width: outer_w as u32, height: outer_h as u32 },
        content: Rect {
            x: (origin.x + off_x) as u32,
            y: (origin.y + off_y) as u32,
            width: min_spec(child_w, outer_w - off_x) as u32,
            height: min_spec(child_h, outer_h - off_y) as u32,
        },
    }
}

/// Padded composition: shrink the limits by the padding on every side, lay
/// out the child against the shrunk limits, then re-expand by the padding
/// to produce the outer box. The size policy governs the outer box, not
/// the inner content box.
///
/// The child here is whatever the wrapper delegates content sizing to; it
/// enters as its natural size and is resolved as `Shrink` against the
/// shrunk limits.
pub fn padded(
    origin: Point,
    limits: &Limits,
    width: Length,
    height: Length,
    padding: Padding,
    natural: Size,
) -> (r: PaddedLayout)
    requires
        limits.wf(),
        origin.x + limits.max_width <= u32::MAX,
        origin.y + limits.max_height <= u32::MAX,
    ensures
        r == padded_spec(origin, *limits, width, height, padding, natural),
        r.content_within_bounds(),
        limits.min_width <= r.bounds.width <= limits.max_width,
        limits.min_height <= r.bounds.height <= limits.max_height,
{
    let pad_w: u32 = padding.left as u32 + padding.right as u32;
    let pad_h: u32 = padding.top as u32 + padding.bottom as u32;
    let child_w = clamp_u32(
        natural.width,
        sub_floor(limits.min_width, pad_w),
        sub_floor(limits.max_width, pad_w),
    );
    let child_h = clamp_u32(
        natural.height,
        sub_floor(limits.min_height, pad_h),
        sub_floor(limits.max_height, pad_h),
    );
    let outer_w = resolve_axis(width, child_w + pad_w, limits.min_width, limits.max_width);
    let outer_h = resolve_axis(height, child_h + pad_h, limits.min_height, limits.max_height);
    let off_x = min_u32(padding.left as u32, outer_w);
    let off_y = min_u32(padding.top as u32, outer_h);
    PaddedLayout {
        bounds: Rect { x: origin.x, y: origin.y, width: outer_w, height: outer_h },
        content: Rect {
            x: origin.x + off_x,
            y: origin.y + off_y,
            width: min_u32(child_w, outer_w - off_x),
            height: min_u32(child_h, outer_h - off_y),
        },
    }
}

/// Under ordinary conditions — a `Shrink` wrapper with room for child and
/// padding — the outer box is exactly the child's natural size re-expanded
/// by the padding, and the child sits at the padding offset.
pub proof fn lemma_padded_expands_shrink_wrapper(
    origin: Point,
    limits: Limits,
    padding: Padding,
    natural: Size,
)
    requires
        limits.wf(),
        limits.min_width == 0,
        limits.min_height == 0,
        origin.x + limits.max_width <= u32::MAX,
        origin.y + limits.max_height <= u32::MAX,
        natural.width + padding.horizontal_spec() <= limits.max_width,
        natural.height + padding.vertical_spec() <= limits.max_height,
    ensures
        ({
            let r = padded_spec(origin, limits, Length::Shrink, Length::Shrink, padding, natural);
            &&& r.bounds.width == natural.width + padding.horizontal_spec()
            &&& r.bounds.height == natural.height + padding.vertical_spec()
            &&& r.content.x == origin.x + padding.left
            &&& r.content.y == origin.y + padding.top
            &&& r.content.width == natural.width
            &&& r.content.height == natural.height
        }),
{
}

/// The sum of a set of sibling portions.
pub open spec fn sum_portions_spec(portions: Seq<u16>) -> int
    decreases portions.len(),
{
    if portions.len() == 0 {
        0
    } else {
        sum_portions_spec(portions.drop_last()) + portions.last()
    }
}

/// A portion sum is never negative.
pub proof fn lemma_sum_portions_nonneg(portions: Seq<u16>)
    ensures
        sum_portions_spec(portions) >= 0,
    decreases portions.len(),
{
    if portions.len() > 0 {
        lemma_sum_portions_nonneg(portions.drop_last());
    }
}

/// Every portion is at most the sum of all portions.
pub proof fn lemma_sum_portions_bounds_each(portions: Seq<u16>, i: int)
    requires
        0 <= i < portions.len(),
    ensures
        portions[i] <= sum_portions_spec(portions),
    decreases portions.len(),
{
    if i == portions.len() - 1 {
        lemma_sum_portions_nonneg(portions.drop_last());
    } else {
        lemma_sum_portions_bounds_each(portions.drop_last(), i);
    }
}

/// The share of a span one sibling portion claims: the span divided among
/// all sibling portions in proportion, rounding down. When every portion
/// is zero there is nothing to claim a share of, and every share is zero.
pub open spec fn portion_share_spec(total: int, portions: Seq<u16>, i: int) -> int {
    let s = sum_portions_spec(portions);
    if s == 0 {
        0
    } else {
        total * portions[i] / s
    }
}

/// A share never exceeds the span that was divided.
pub proof fn lemma_portion_share_bounded(total: int, portions: Seq<u16>, i: int)
    requires
        0 <= i < portions.len(),
        0 <= total,
    ensures
        0 <= portion_share_spec(total, portions, i) <= total,
{
    let s = sum_portions_spec(portions);
    let p = portions[i] as int;
    if s != 0 {
        lemma_sum_portions_bounds_each(portions, i);
        lemma_mul_inequality(0, p, total);
        lemma_div_is_ordered(0, total * p, s);
        lemma_mul_inequality(p, s, total);
        lemma_div_is_ordered(total * p, total * s, s);
        lemma_div_multiples_vanish(total, s);
    }
}

/// Divide a span among sibling portions: sibling `i` receives
/// `total * portions[i] / sum(portions)` device units, rounding down.
///
/// This is the portion-aware step a containing layout context performs
/// before resolving each sibling against its computed share.
pub fn distribute(total: u32, portions: &Vec<u16>) -> (shares: Vec<u32>)
    requires
        portions@.len() <= u32::MAX,
    ensures
        shares@.len() == portions@.len(),
        forall|i: int|
            0 <= i < portions@.len() ==> shares@[i] == portion_share_spec(
                total as int,
                portions@,
                i,
            ),
        forall|i: int| 0 <= i < portions@.len() ==> shares@[i] <= total,
{
    let n = portions.len();
    let mut sum: u64 = 0;
    let mut i: usize = 0;
    while i < n
        invariant
            n == portions@.len() <= u32::MAX,
            i <= n,
            sum == sum_portions_spec(portions@.take(i as int)),
            sum <= i * 0xFFFF,
        decreases n - i,
    {
        proof {
            assert(portions@.take(i + 1).drop_last() =~= portions@.take(i as int));
            assert(portions@.take(i + 1).last() == portions@[i as int]);
        }
        sum = sum + portions[i] as u64;
        i = i + 1;
    }
    proof {
        assert(portions@.take(n as int) =~= portions@);
    }
    let mut shares: Vec<u32> = Vec::new();
    let mut i: usize = 0;
    while i < n
        invariant
            n == portions@.len() <= u32::MAX,
            i <= n,
            sum == sum_portions_spec(portions@),
            shares@.len() == i,
            forall|j: int|
                0 <= j < i ==> shares@[j] == portion_share_spec(total as int, portions@, j),
            forall|j: int| 0 <= j < i ==> shares@[j] <= total,
        decreases n - i,
    {
        if sum == 0 {
            proof {
                lemma_portion_share_bounded(total as int, portions@, i as int);
            }
            shares.push(0);
        } else {
            let p = portions[i];
            proof {
                lemma_mul_inequality(p as int, 0xFFFF, total as int);
                lemma_mul_inequality(total as int, 0xFFFF_FFFF, 0xFFFF);
                lemma_mul_is_commutative(p as int, total as int);
                lemma_mul_is_commutative(0xFFFF, total as int);
                assert(total as int * p as int <= 0xFFFF_FFFFint * 0xFFFFint);
                lemma_portion_share_bounded(total as int, portions@, i as int);
            }
            let wide: u64 = (total as u64) * (p as u64) / sum;
            shares.push(wide as u32);
        }
        i = i + 1;
    }
    shares
}

} // verus!

