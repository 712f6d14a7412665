//! The earlier filled-rectangle component, kept alongside
//! [`crate::widgets::rectangle`] for callers that still build against its
//! own color-role enumeration.

use vstd::prelude::*;

use crate::geometry::{Point, Rect};
use crate::layout::{atomic, atomic_spec, Length, Limits, Sizing};
use crate::paint::Quad;
use crate::theme::Theme;

verus! {

/// The semantic color roles of [`RectFill`]: the same closed set as
/// [`crate::common::color_pattern::ColorPattern`], under this component's
/// own name.
#[derive(Clone, Copy, Debug, PartialEq, Eq, Structural)]
pub enum RectFillColors {
    BackgroundBase,
    BackgroundStrong,
    BackgroundWeak,
    DangerBase,
    DangerStrong,
    DangerWeak,
    PrimaryBase,
    PrimaryStrong,
    PrimaryWeak,
    SecondaryBase,
    SecondaryStrong,
    SecondaryWeak,
    SuccessBase,
    SuccessStrong,
    SuccessWeak,
}

impl Default for RectFillColors {
    /// The neutral role a component starts with.
    fn default() -> (c: Self)
        ensures
            c == RectFillColors::BackgroundBase,
    {
        RectFillColors::BackgroundBase
    }
}

impl RectFillColors {
    /// The stable name of this role, as exposed to UI pickers.
    pub open spec fn name_spec(self) -> Seq<char> {
        match self {
            RectFillColors::BackgroundBase => "BackgroundBase"@,
            RectFillColors::BackgroundStrong => "BackgroundStrong"@,
            RectFillColors::BackgroundWeak => "BackgroundWeak"@,
            RectFillColors::DangerBase => "DangerBase"@,
            RectFillColors::DangerStrong => "DangerStrong"@,
            RectFillColors::DangerWeak => "DangerWeak"@,
            RectFillColors::PrimaryBase => "PrimaryBase"@,
            RectFillColors::PrimaryStrong => "PrimaryStrong"@,
            RectFillColors::PrimaryWeak => "PrimaryWeak"@,
            RectFillColors::SecondaryBase => "SecondaryBase"@,
            RectFillColors::SecondaryStrong => "SecondaryStrong"@,
            RectFillColors::SecondaryWeak => "SecondaryWeak"@,
            RectFillColors::SuccessBase => "SuccessBase"@,
            RectFillColors::SuccessStrong => "SuccessStrong"@,
            RectFillColors::SuccessWeak => "SuccessWeak"@,
        }
    }

    /// The stable name of this role.
    pub fn name(&self) -> (r: &'static str)
        ensures
            r@ == self.name_spec(),
    {
        match self {
            RectFillColors::BackgroundBase => "BackgroundBase",
            RectFillColors::BackgroundStrong => "BackgroundStrong",
            RectFillColors::BackgroundWeak => "BackgroundWeak",
            RectFillColors::DangerBase => "DangerBase",
            RectFillColors::DangerStrong => "DangerStrong",
            RectFillColors::DangerWeak => "DangerWeak",
            RectFillColors::PrimaryBase => "PrimaryBase",
            RectFillColors::PrimaryStrong => "PrimaryStrong",
            RectFillColors::PrimaryWeak => "PrimaryWeak",
            RectFillColors::SecondaryBase => "SecondaryBase",
            RectFillColors::SecondaryStrong => "SecondaryStrong",
            RectFillColors::SecondaryWeak => "SecondaryWeak",
            RectFillColors::SuccessBase => "SuccessBase",
            RectFillColors::SuccessStrong => "SuccessStrong",
            RectFillColors::SuccessWeak => "SuccessWeak",
        }
    }

    /// The fixed, ordered list of all roles.
    pub open spec fn all_spec() -> Seq<RectFillColors> {
        seq![
            RectFillColors::BackgroundBase,
            RectFillColors::BackgroundStrong,
            RectFillColors::BackgroundWeak,
            RectFillColors::DangerBase,
            RectFillColors::DangerStrong,
            RectFillColors::DangerWeak,
            RectFillColors::PrimaryBase,
            RectFillColors::PrimaryStrong,
            RectFillColors::PrimaryWeak,
            RectFillColors::SecondaryBase,
            RectFillColors::SecondaryStrong,
            RectFillColors::SecondaryWeak,
            RectFillColors::SuccessBase,
            RectFillColors::SuccessStrong,
            RectFillColors::SuccessWeak,
        ]
    }

    /// All roles, in their fixed order, for UI pickers.
    pub fn all() -> (v: Vec<RectFillColors>)
        ensures
            v@ == RectFillColors::all_spec(),
    {
        let mut v: Vec<RectFillColors> = Vec::new();
        v.push(RectFillColors::BackgroundBase);
        v.push(RectFillColors::BackgroundStrong);
        v.push(RectFillColors::BackgroundWeak);
        v.push(RectFillColors::DangerBase);
        v.push(RectFillColors::DangerStrong);
        v.push(RectFillColors::DangerWeak);
        v.push(RectFillColors::PrimaryBase);
        v.push(RectFillColors::PrimaryStrong);
        v.push(RectFillColors::PrimaryWeak);
        v.push(RectFillColors::SecondaryBase);
        v.push(RectFillColors::SecondaryStrong);
        v.push(RectFillColors::SecondaryWeak);
        v.push(RectFillColors::SuccessBase);
        v.push(RectFillColors::SuccessStrong);
        v.push(RectFillColors::SuccessWeak);
        proof {
            assert(v@ =~= RectFillColors::all_spec());
        }
        v
    }
}

/// The resolved visual attributes of a [`RectFill`].
#[derive(Clone, Copy, Debug, PartialEq, Eq, Structural)]
pub struct Style {
    pub color: crate::theme::Color,
}

/// The default catalog for [`RectFill`]: look the color role up in the
/// theme's palette and take the pair's fill color.
pub open spec fn load_color_spec(theme: Theme, cs: RectFillColors) -> Style {
    let pair = match cs {
        RectFillColors::BackgroundBase => theme.background.base,
        RectFillColors::BackgroundStrong => theme.background.strong,
        RectFillColors::BackgroundWeak => theme.background.weak,
        RectFillColors::DangerBase => theme.danger.base,
        RectFillColors::DangerStrong => theme.danger.strong,
        RectFillColors::DangerWeak => theme.danger.weak,
        RectFillColors::PrimaryBase => theme.primary.base,
        RectFillColors::PrimaryStrong => theme.primary.strong,
        RectFillColors::PrimaryWeak => theme.primary.weak,
        RectFillColors::SecondaryBase => theme.secondary.base,
        RectFillColors::SecondaryStrong => theme.secondary.strong,
        RectFillColors::SecondaryWeak => theme.secondary.weak,
        RectFillColors::SuccessBase => theme.success.base,
        RectFillColors::SuccessStrong => theme.success.strong,
        RectFillColors::SuccessWeak => theme.success.weak,
    };
    Style { color: pair.color }
}

/// Resolve a color role against a theme. A pure palette lookup: same
/// theme and role, same style.
pub fn load_color(theme: &Theme, cs: RectFillColors) -> (s: Style)
    ensures
        s == load_color_spec(*theme, cs),
{
    let pair = match cs {
        RectFillColors::BackgroundBase => theme.background.base,
        RectFillColors::BackgroundStrong => theme.background.strong,
        RectFillColors::BackgroundWeak => theme.background.weak,
        RectFillColors::DangerBase => theme.danger.base,
        RectFillColors::DangerStrong => theme.danger.strong,
        RectFillColors::DangerWeak => theme.danger.weak,
        RectFillColors::PrimaryBase => theme.primary.base,
        RectFillColors::PrimaryStrong => theme.primary.strong,
        RectFillColors::PrimaryWeak => theme.primary.weak,
        RectFillColors::SecondaryBase => theme.secondary.base,
        RectFillColors::SecondaryStrong => theme.secondary.strong,
        RectFillColors::SecondaryWeak => theme.secondary.weak,
        RectFillColors::SuccessBase => theme.success.base,
        RectFillColors::SuccessStrong => theme.success.strong,
        RectFillColors::SuccessWeak => theme.success.weak,
    };
    Style { color: pair.color }
}

/// How one component resolves its style: through the theme's palette, or
/// through a caller-supplied style pinned to this instance. This
/// per-instance override is the only supported customization mechanism;
/// the default resolver follows the theme, a custom class does not.
#[derive(Clone, Copy, Debug, PartialEq, Eq, Structural)]
pub enum Class {
    /// Look the color role up in the current theme ([`load_color`]).
    Themed,
    /// Use this style, whatever the theme and role say.
    Custom(Style),
}

impl Default for Class {
    fn default() -> (c: Self)
        ensures
            c == Class::Themed,
    {
        Class::Themed
    }
}

/// What the component's resolver returns: a pure function of the theme,
/// the instance's class and its color role.
pub open spec fn resolve_spec(theme: Theme, class: Class, cs: RectFillColors) -> Style {
    match class {
        Class::Themed => load_color_spec(theme, cs),
        Class::Custom(style) => style,
    }
}

/// Resolve the component's style for one paint.
pub fn resolve(theme: &Theme, class: &Class, cs: RectFillColors) -> (s: Style)
    ensures
        s == resolve_spec(*theme, *class, cs),
{
    match class {
        Class::Themed => load_color(theme, cs),
        Class::Custom(style) => *style,
    }
}

/// A filled rectangle with a semantic color role, under this component's
/// own enumeration. Stateless.
#[derive(Clone, Copy, Debug, PartialEq, Eq, Structural)]
pub struct RectFill {
    pub width: Length,
    pub height: Length,
    pub border_radius: usize,
    pub color_schema: RectFillColors,
    pub class: Class,
}

impl Default for RectFill {
    /// Shrinking width, filling height, square corners, the neutral
    /// background role, themed style.
    fn default() -> (r: Self)
        ensures
            r == (RectFill {
                width: Length::Shrink,
                height: Length::Fill,
                border_radius: 0,
                color_schema: RectFillColors::BackgroundBase,
                class: Class::Themed,
            }),
    {
        RectFill {
            width: Length::Shrink,
            height: Length::Fill,
            border_radius: 0,
            color_schema: RectFillColors::BackgroundBase,
            class: Class::Themed,
        }
    }
}

impl RectFill {
    /// A component with the default configuration.
    pub fn new() -> (r: Self)
        ensures
            r == (RectFill {
                width: Length::Shrink,
                height: Length::Fill,
                border_radius: 0,
                color_schema: RectFillColors::BackgroundBase,
                class: Class::Themed,
            }),
    {
        RectFill::default()
    }

    /// Override the style resolution for this component alone.
    pub fn class(self, class: Class) -> (r: Self)
        ensures
            r == (RectFill { class, ..self }),
    {
        RectFill { class, ..self }
    }

    /// Select the semantic color role.
    pub fn color_schema(self, color_schema: RectFillColors) -> (r: Self)
        ensures
            r == (RectFill { color_schema, ..self }),
    {
        RectFill { color_schema, ..self }
    }

    /// Set the corner rounding.
    pub fn border_radius(self, radius: usize) -> (r: Self)
        ensures
            r == (RectFill { border_radius: radius, ..self }),
    {
        RectFill { border_radius: radius, ..self }
    }

    /// Set the height policy.
    pub fn height(self, height: Length) -> (r: Self)
        ensures
            r == (RectFill { height, ..self }),
    {
        RectFill { height, ..self }
    }

    /// Set the width policy.
    pub fn width(self, width: Length) -> (r: Self)
        ensures
            r == (RectFill { width, ..self }),
    {
        RectFill { width, ..self }
    }

    /// The size policy the component reports to its container.
    pub fn size(&self) -> (s: Sizing)
        ensures
            s == (Sizing { width: self.width, height: self.height }),
    {
        Sizing { width: self.width, height: self.height }
    }

    /// Atomic composition: each axis of the declared size policy resolved
    /// directly against the limits.
    pub fn layout(&self, origin: Point, limits: &Limits) -> (r: Rect)
        requires
            limits.wf(),
        ensures
            r == atomic_spec(origin, *limits, self.width, self.height),
    {
        atomic(origin, limits, self.width, self.height)
    }

    /// Paint: one quad at the resolved bounds, filled with the style the
    /// component's class resolves for its role under the current theme.
    pub fn draw(&self, theme: &Theme, bounds: Rect) -> (q: Quad)
        ensures
            q == (Quad {
                bounds,
                border_radius: self.border_radius,
                background: resolve_spec(*theme, self.class, self.color_schema).color,
            }),
    {
        let style = resolve(theme, &self.class, self.color_schema);
        Quad { bounds, border_radius: self.border_radius, background: style.color }
    }
}

} // verus!
