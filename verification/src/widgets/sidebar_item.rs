//! The labeled sidebar entry: an interactive component that wraps a label,
//! pads it, reacts to hover and press, and emits an application message
//! when activated.

use vstd::prelude::*;

use crate::event::{is_press_spec, Cursor, Event, EventStatus, Interaction};
use crate::geometry::{Point, Rect, Size};
use crate::layout::{padded, padded_spec, Length, Limits, Padding, PaddedLayout, Sizing};
use crate::paint::{Primitive, Quad};
use crate::theme::{Pair, Theme};
use crate::tree::{Tag, Tree};

verus! {

/// The persistent interaction state of a sidebar entry.
///
/// Release policy: a primary press leaves the entry `Active`, and no
/// release transition exists in this layer — `Active` persists until the
/// host resets the entry's tree position (identity change) or the
/// application forces another status. The hover transitions apply only
/// between `Inactive` and `Hovered`; they are recomputed from the cursor
/// on every pass and never touch `Active` or `Disabled`.
#[derive(Clone, Copy, Debug, PartialEq, Eq, Structural)]
pub enum Status {
    /// Pressed; the entry's action has been emitted.
    Active,
    /// No interaction: the initial and default state.
    Inactive,
    /// The cursor is over the entry's bounds.
    Hovered,
    /// The entry ignores all interaction until explicitly re-enabled.
    Disabled,
}

impl Default for Status {
    /// The state a node starts with the first time it occupies a tree
    /// position.
    fn default() -> (s: Self)
        ensures
            s == Status::Inactive,
    {
        Status::Inactive
    }
}

impl Status {
    /// The hover transitions of one pass, from the current state and
    /// whether the cursor is inside the entry's bounds: `Inactive` becomes
    /// `Hovered` when the cursor is inside, `Hovered` falls back to
    /// `Inactive` when it is not, and `Active` and `Disabled` are left
    /// alone.
    pub open spec fn after_hover_spec(self, over: bool) -> Status {
        match self {
            Status::Inactive => if over {
                Status::Hovered
            } else {
                Status::Inactive
            },
            Status::Hovered => if over {
                Status::Hovered
            } else {
                Status::Inactive
            },
            Status::Active => Status::Active,
            Status::Disabled => Status::Disabled,
        }
    }

    /// Apply the hover transitions of one pass.
    pub fn after_hover(self, over: bool) -> (s: Status)
        ensures
            s == self.after_hover_spec(over),
    {
        match self {
            Status::Inactive => if over {
                Status::Hovered
            } else {
                Status::Inactive
            },
            Status::Hovered => if over {
                Status::Hovered
            } else {
                Status::Inactive
            },
            Status::Active => Status::Active,
            Status::Disabled => Status::Disabled,
        }
    }
}

/// The resolved visual attributes of a sidebar entry: recomputed at every
/// paint, never stored.
#[derive(Clone, Copy, Debug, PartialEq, Eq, Structural)]
pub struct Style {
    pub background: crate::theme::Color,
}

impl Default for Style {
    /// An opaque black fill, for hosts that paint before any catalog ran.
    fn default() -> (s: Self)
        ensures
            s == (Style { background: crate::theme::Color { r: 0, g: 0, b: 0, a: 255 } }),
    {
        Style { background: crate::theme::Color { r: 0, g: 0, b: 0, a: 255 } }
    }
}

/// An explicit style per interaction status: the strategy a caller
/// supplies to override the theme's default catalog for one entry.
#[derive(Clone, Copy, Debug, PartialEq, Eq, Structural)]
pub struct StatusStyles {
    pub active: Style,
    pub inactive: Style,
    pub hovered: Style,
    pub disabled: Style,
}

impl StatusStyles {
    /// The style this table assigns to a status.
    pub open spec fn for_status_spec(self, status: Status) -> Style {
        match status {
            Status::Active => self.active,
            Status::Inactive => self.inactive,
            Status::Hovered => self.hovered,
            Status::Disabled => self.disabled,
        }
    }
}

/// How one entry resolves its style: through the theme's default catalog,
/// or through a caller-supplied table. This per-instance override is the
/// only supported customization mechanism.
#[derive(Clone, Copy, Debug, PartialEq, Eq, Structural)]
pub enum Class {
    /// Use the theme's default catalog ([`load_color`]).
    Themed,
    /// Use this explicit style table.
    Custom(StatusStyles),
}

impl Default for Class {
    fn default() -> (c: Self)
        ensures
            c == Class::Themed,
    {
        Class::Themed
    }
}

/// A style whose background is the fill color of a palette pair.
pub open spec fn styled_spec(pair: Pair) -> Style {
    Style { background: pair.color }
}

/// Build a style from a palette pair.
pub fn styled(pair: Pair) -> (s: Style)
    ensures
        s == styled_spec(pair),
{
    Style { background: pair.color }
}

/// The style faded for a disabled entry: every color's opacity scaled by
/// one half.
pub open spec fn disabled_spec(style: Style) -> Style {
    Style { background: style.background.half_alpha_spec() }
}

/// Fade a style for a disabled entry.
pub fn disabled(style: Style) -> (s: Style)
    ensures
        s == disabled_spec(style),
{
    Style { background: style.background.half_alpha() }
}

/// The theme's default status catalog: `Active` and `Inactive` take the
/// style derived from the theme's strong primary pair, `Hovered` a
/// visually distinct strong background, and `Disabled` the base style with
/// its opacity halved.
pub open spec fn load_color_spec(theme: Theme, status: Status) -> Style {
    let base = styled_spec(theme.primary.strong);
    match status {
        Status::Active => base,
        Status::Inactive => base,
        Status::Hovered => styled_spec(theme.background.strong),
        Status::Disabled => disabled_spec(base),
    }
}

/// Resolve the default style of a status against a theme.
pub fn load_color(theme: &Theme, status: Status) -> (s: Style)
    ensures
        s == load_color_spec(*theme, status),
{
    let base = styled(theme.primary.strong);
    match status {
        Status::Active => base,
        Status::Inactive => base,
        Status::Hovered => styled(theme.background.strong),
        Status::Disabled => disabled(base),
    }
}

/// What an entry's resolver returns: a pure function of the theme, the
/// entry's class and the interaction status.
pub open spec fn resolve_spec(theme: Theme, class: Class, status: Status) -> Style {
    match class {
        Class::Themed => load_color_spec(theme, status),
        Class::Custom(styles) => styles.for_status_spec(status),
    }
}

/// Resolve an entry's style for one paint.
pub fn resolve(theme: &Theme, class: &Class, status: Status) -> (s: Style)
    ensures
        s == resolve_spec(*theme, *class, status),
{
    match class {
        Class::Themed => load_color(theme, status),
        Class::Custom(styles) => match status {
            Status::Active => styles.active,
            Status::Inactive => styles.inactive,
            Status::Hovered => styles.hovered,
            Status::Disabled => styles.disabled,
        },
    }
}

/// Style purity: two resolutions with identical theme, class and status
/// arguments yield bit-identical styles.
pub proof fn lemma_resolve_deterministic(
    theme: Theme,
    class: Class,
    status: Status,
    first: Style,
    second: Style,
)
    requires
        first == resolve_spec(theme, class, status),
        second == resolve_spec(theme, class, status),
    ensures
        first == second,
{
}

/// The label an entry wraps. Text shaping is out of scope for this layer:
/// the label enters as the natural size its own layout reports, and paint
/// delegates its drawing back to the host.
#[derive(Clone, Copy, Debug, PartialEq, Eq, Structural)]
pub struct Label {
    pub natural: Size,
}

/// The action payload an entry emits on activation.
#[derive(Clone, Copy, Debug, PartialEq, Eq)]
pub enum OnPress<M> {
    /// Emit this message as it is.
    Direct(M),
}

impl<M> OnPress<M> {
    /// The message this payload emits.
    pub open spec fn value_spec(self) -> M {
        match self {
            OnPress::Direct(m) => m,
        }
    }
}

impl<M: Copy> OnPress<M> {
    /// The message to hand to the application.
    pub fn get(&self) -> (m: M)
        ensures
            m == self.value_spec(),
    {
        match self {
            OnPress::Direct(m) => *m,
        }
    }
}

/// A labeled sidebar entry. Immutable, builder-constructed configuration,
/// rebuilt every frame; its interaction state lives in the host's arena
/// ([`Tree`]), keyed by tree position.
#[derive(Clone, Copy, Debug, PartialEq, Eq)]
pub struct SideBarItem<M> {
    pub width: Length,
    pub height: Length,
    pub border_radius: usize,
    pub label: Label,
    pub padding: Padding,
    pub on_press: Option<OnPress<M>>,
    pub class: Class,
}

impl<M> SideBarItem<M> {
    /// A new entry around a label: shrinks to the label on both axes, no
    /// corner rounding, the default padding, no action, themed style.
    pub fn new(label: Label) -> (item: Self)
        ensures
            item.width == Length::Shrink,
            item.height == Length::Shrink,
            item.border_radius == 0,
            item.label == label,
            item.padding == (Padding { top: 5, right: 5, bottom: 5, left: 5 }),
            item.on_press is None,
            item.class == Class::Themed,
    {
        SideBarItem {
            width: Length::Shrink,
            height: Length::Shrink,
            border_radius: 0,
            label,
            padding: Padding::uniform(5),
            on_press: None,
            class: Class::Themed,
        }
    }

    /// Set the corner rounding of the entry's background.
    pub fn border_radius(self, radius: usize) -> (item: Self)
        ensures
            item == (SideBarItem { border_radius: radius, ..self }),
    {
        SideBarItem { border_radius: radius, ..self }
    }

    /// Override the style resolution for this entry alone.
    pub fn class(self, class: Class) -> (item: Self)
        ensures
            item == (SideBarItem { class, ..self }),
    {
        SideBarItem { class, ..self }
    }

    /// Set the height policy.
    pub fn height(self, height: Length) -> (item: Self)
        ensures
            item == (SideBarItem { height, ..self }),
    {
        SideBarItem { height, ..self }
    }

    /// Emit this message when the entry is activated.
    pub fn on_press(self, on_press: M) -> (item: Self)
        ensures
            item == (SideBarItem { on_press: Some(OnPress::Direct(on_press)), ..self }),
    {
        SideBarItem { on_press: Some(OnPress::Direct(on_press)), ..self }
    }

    /// Set the padding around the label.
    pub fn padding(self, padding: Padding) -> (item: Self)
        ensures
            item == (SideBarItem { padding, ..self }),
    {
        SideBarItem { padding, ..self }
    }

    /// Set the width policy.
    pub fn width(self, width: Length) -> (item: Self)
        ensures
            item == (SideBarItem { width, ..self }),
    {
        SideBarItem { width, ..self }
    }

    /// The size policy the entry reports to its container: the declared
    /// policy on both axes.
    pub fn size(&self) -> (s: Sizing)
        ensures
            s == (Sizing { width: self.width, height: self.height }),
    {
        Sizing { width: self.width, height: self.height }
    }

    /// The state kind an entry stores at its tree position.
    pub fn tag(&self) -> (t: Tag)
        ensures
            t == Tag::Interactive,
    {
        Tag::Interactive
    }

    /// The fresh state an entry starts with.
    pub fn state(&self) -> (s: Status)
        ensures
            s == Status::Inactive,
    {
        Status::Inactive
    }

    /// Padded composition: the entry's outer box is its size policy
    /// resolved over the label re-expanded by the padding; the label sits
    /// at the padding offset inside it.
    pub fn layout(&self, origin: Point, limits: &Limits) -> (r: PaddedLayout)
        requires
            limits.wf(),
            origin.x + limits.max_width <= u32::MAX,
            origin.y + limits.max_height <= u32::MAX,
        ensures
            r == padded_spec(origin, *limits, self.width, self.height, self.padding, self.label.natural),
            r.content_within_bounds(),
            limits.min_width <= r.bounds.width <= limits.max_width,
            limits.min_height <= r.bounds.height <= limits.max_height,
    {
        padded(origin, limits, self.width, self.height, self.padding, self.label.natural)
    }

    /// The pointer shape over this entry: a pointing hand inside its
    /// bounds, the idle pointer outside.
    pub fn mouse_interaction(&self, bounds: &Rect, cursor: Cursor) -> (i: Interaction)
        ensures
            i == if cursor.is_over_spec(*bounds) {
                Interaction::Pointer
            } else {
                Interaction::Idle
            },
    {
        if cursor.is_over(bounds) {
            Interaction::Pointer
        } else {
            Interaction::Idle
        }
    }

    /// Whether dispatching `event` at `cursor` into this entry captures
    /// it: the event is a primary press inside the entry's bounds, an
    /// action payload is configured, and the entry is not disabled.
    pub open spec fn captures_spec(
        self,
        status: Status,
        event: Event,
        bounds: Rect,
        cursor: Cursor,
    ) -> bool {
        &&& is_press_spec(event)
        &&& self.on_press is Some
        &&& cursor.is_over_spec(bounds)
        &&& status != Status::Disabled
    }

    /// The action the entry emits when it captures a press.
    pub open spec fn action_spec(self) -> Option<M> {
        match self.on_press {
            Some(on_press) => Some(on_press.value_spec()),
            None => None,
        }
    }

    /// Paint the entry: one rounded quad at its resolved bounds, filled
    /// with the style of the status the current cursor implies, then the
    /// delegated label paint on top, at the label's own resolved box.
    pub fn draw(&self, tree: &Tree, theme: &Theme, layout: &PaddedLayout, cursor: Cursor) -> (prims:
        Vec<Primitive>)
        ensures
            prims@.len() == 2,
            prims@[0] == Primitive::Quad(
                Quad {
                    bounds: layout.bounds,
                    border_radius: self.border_radius,
                    background: resolve_spec(
                        *theme,
                        self.class,
                        tree.status.after_hover_spec(cursor.is_over_spec(layout.bounds)),
                    ).background,
                },
            ),
            prims@[1] == (Primitive::Content { bounds: layout.content }),
    {
        let over = cursor.is_over(&layout.bounds);
        let display = tree.status.after_hover(over);
        let style = resolve(theme, &self.class, display);
        let mut prims: Vec<Primitive> = Vec::new();
        prims.push(
            Primitive::Quad(
                Quad {
                    bounds: layout.bounds,
                    border_radius: self.border_radius,
                    background: style.background,
                },
            ),
        );
        prims.push(Primitive::Content { bounds: layout.content });
        prims
    }
}

impl<M: Copy> SideBarItem<M> {
    /// Dispatch one raw event into the entry.
    ///
    /// The wrapped label sees the event first (children before parents),
    /// but a label is a passive leaf and never captures. The entry itself
    /// captures exactly the presses [`SideBarItem::captures_spec`]
    /// describes: it then turns `Active`, emits its configured action
    /// exactly once, and stops propagation. Every other event leaves the
    /// state untouched and is ignored; in particular a disabled entry
    /// never captures and never emits.
    pub fn on_event(&self, tree: &mut Tree, event: Event, bounds: &Rect, cursor: Cursor) -> (r: (
        EventStatus,
        Option<M>,
    ))
        ensures
            self.captures_spec(old(tree).status, event, *bounds, cursor) ==> {
                &&& final(tree).status == Status::Active
                &&& final(tree).tag == old(tree).tag
                &&& r.0 == EventStatus::Captured
                &&& r.1 == self.action_spec()
            },
            !self.captures_spec(old(tree).status, event, *bounds, cursor) ==> {
                &&& *final(tree) == *old(tree)
                &&& r.0 == EventStatus::Ignored
                &&& r.1 is None
            },
    {
        match event {
            Event::MouseLeftPressed | Event::FingerPressed => {
                if let Some(on_press) = &self.on_press {
                    if cursor.is_over(bounds) && tree.status != Status::Disabled {
                        tree.status = Status::Active;
                        return (EventStatus::Captured, Some(on_press.get()));
                    }
                }
            },
            _ => {},
        }
        (EventStatus::Ignored, None)
    }
}

/// One frame of input to a single entry: the raw event and the cursor the
/// host reported for that pass.
pub struct Input {
    pub event: Event,
    pub cursor: Cursor,
}

/// The persisted state after dispatching one frame of input into an entry
/// whose bounds are `bounds`: exactly what [`SideBarItem::on_event`] does
/// to the state arena.
pub open spec fn step_spec<M>(
    item: SideBarItem<M>,
    status: Status,
    bounds: Rect,
    input: Input,
) -> Status {
    if item.captures_spec(status, input.event, bounds, input.cursor) {
        Status::Active
    } else {
        status
    }
}

/// The persisted state after dispatching a whole sequence of input frames
/// into an entry, in order.
pub open spec fn run_spec<M>(
    item: SideBarItem<M>,
    status: Status,
    bounds: Rect,
    inputs: Seq<Input>,
) -> Status
    decreases inputs.len(),
{
    if inputs.len() == 0 {
        status
    } else {
        run_spec(item, step_spec(item, status, bounds, inputs[0]), bounds, inputs.drop_first())
    }
}

/// How many actions a sequence of input frames makes an entry emit: one
/// for every frame it captures.
pub open spec fn emitted_spec<M>(
    item: SideBarItem<M>,
    status: Status,
    bounds: Rect,
    inputs: Seq<Input>,
) -> nat
    decreases inputs.len(),
{
    if inputs.len() == 0 {
        0
    } else {
        (if item.captures_spec(status, inputs[0].event, bounds, inputs[0].cursor) {
            1nat
        } else {
            0nat
        }) + emitted_spec(item, step_spec(item, status, bounds, inputs[0]), bounds, inputs.drop_first())
    }
}

/// A disabled entry is inert: under any sequence of hover and press
/// frames it stays `Disabled`, never shows `Hovered` or `Active` on any
/// pass, and never emits an action.
pub proof fn lemma_disabled_stays_inert<M>(item: SideBarItem<M>, bounds: Rect, inputs: Seq<Input>)
    ensures
        run_spec(item, Status::Disabled, bounds, inputs) == Status::Disabled,
        emitted_spec(item, Status::Disabled, bounds, inputs) == 0,
        forall|over: bool| Status::Disabled.after_hover_spec(over) == Status::Disabled,
    decreases inputs.len(),
{
    if inputs.len() > 0 {
        lemma_disabled_stays_inert(item, bounds, inputs.drop_first());
    }
}

} // verus!
