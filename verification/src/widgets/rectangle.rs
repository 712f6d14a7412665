//! A filled, optionally rounded rectangle that picks its color through a
//! semantic color role.

use vstd::prelude::*;

use crate::common::color_pattern::ColorPattern;
use crate::geometry::{Point, Rect};
use crate::layout::{atomic, atomic_spec, Length, Limits, Sizing};
use crate::paint::Quad;
use crate::theme::Theme;

verus! {

/// The resolved visual attributes of a rectangle.
#[derive(Clone, Copy, Debug, PartialEq, Eq, Structural)]
pub struct Style {
    pub color: crate::theme::Color,
}

/// The default catalog for rectangles: look the color role up in the
/// theme's palette and take the pair's fill color.
pub open spec fn load_color_spec(theme: Theme, cs: ColorPattern) -> Style {
    let pair = match cs {
        ColorPattern::BackgroundBase => theme.background.base,
        ColorPattern::BackgroundStrong => theme.background.strong,
        ColorPattern::BackgroundWeak => theme.background.weak,
        ColorPattern::DangerBase => theme.danger.base,
        ColorPattern::DangerStrong => theme.danger.strong,
        ColorPattern::DangerWeak => theme.danger.weak,
        ColorPattern::PrimaryBase => theme.primary.base,
        ColorPattern::PrimaryStrong => theme.primary.strong,
        ColorPattern::PrimaryWeak => theme.primary.weak,
        ColorPattern::SecondaryBase => theme.secondary.base,
        ColorPattern::SecondaryStrong => theme.secondary.strong,
        ColorPattern::SecondaryWeak => theme.secondary.weak,
        ColorPattern::SuccessBase => theme.success.base,
        ColorPattern::SuccessStrong => theme.success.strong,
        ColorPattern::SuccessWeak => theme.success.weak,
    };
    Style { color: pair.color }
}

/// Resolve a color role against a theme. A pure palette lookup: same
/// theme and role, same style.
pub fn load_color(theme: &Theme, cs: ColorPattern) -> (s: Style)
    ensures
        s == load_color_spec(*theme, cs),
{
    let pair = match cs {
        ColorPattern::BackgroundBase => theme.background.base,
        ColorPattern::BackgroundStrong => theme.background.strong,
        ColorPattern::BackgroundWeak => theme.background.weak,
        ColorPattern::DangerBase => theme.danger.base,
        ColorPattern::DangerStrong => theme.danger.strong,
        ColorPattern::DangerWeak => theme.danger.weak,
        ColorPattern::PrimaryBase => theme.primary.base,
        ColorPattern::PrimaryStrong => theme.primary.strong,
        ColorPattern::PrimaryWeak => theme.primary.weak,
        ColorPattern::SecondaryBase => theme.secondary.base,
        ColorPattern::SecondaryStrong => theme.secondary.strong,
        ColorPattern::SecondaryWeak => theme.secondary.weak,
        ColorPattern::SuccessBase => theme.success.base,
        ColorPattern::SuccessStrong => theme.success.strong,
        ColorPattern::SuccessWeak => theme.success.weak,
    };
    Style { color: pair.color }
}

/// How one rectangle resolves its style: through the theme's palette, or
/// through a caller-supplied style pinned to this instance. This
/// per-instance override is the only supported customization mechanism;
/// the default resolver follows the theme, a custom class does not.
#[derive(Clone, Copy, Debug, PartialEq, Eq, Structural)]
pub enum Class {
    /// Look the color role up in the current theme ([`load_color`]).
    Themed,
    /// Use this style, whatever the theme and role say.
    Custom(Style),
}

impl Default for Class {
    fn default() -> (c: Self)
        ensures
            c == Class::Themed,
    {
        Class::Themed
    }
}

/// What a rectangle's resolver returns: a pure function of the theme, the
/// instance's class and its color role.
pub open spec fn resolve_spec(theme: Theme, class: Class, cs: ColorPattern) -> Style {
    match class {
        Class::Themed => load_color_spec(theme, cs),
        Class::Custom(style) => style,
    }
}

/// Resolve a rectangle's style for one paint.
pub fn resolve(theme: &Theme, class: &Class, cs: ColorPattern) -> (s: Style)
    ensures
        s == resolve_spec(*theme, *class, cs),
{
    match class {
        Class::Themed => load_color(theme, cs),
        Class::Custom(style) => *style,
    }
}

/// A filled rectangle with a semantic color role. Stateless: it takes no
/// interaction and stores nothing across frames.
#[derive(Clone, Copy, Debug, PartialEq, Eq, Structural)]
pub struct Rectangle {
    pub width: Length,
    pub height: Length,
    pub border_radius: usize,
    pub color_schema: ColorPattern,
    pub class: Class,
}

impl Default for Rectangle {
    /// Shrinking width, filling height, square corners, the neutral
    /// background role, themed style.
    fn default() -> (r: Self)
        ensures
            r == (Rectangle {
                width: Length::Shrink,
                height: Length::Fill,
                border_radius: 0,
                color_schema: ColorPattern::BackgroundBase,
                class: Class::Themed,
            }),
    {
        Rectangle {
            width: Length::Shrink,
            height: Length::Fill,
            border_radius: 0,
            color_schema: ColorPattern::BackgroundBase,
            class: Class::Themed,
        }
    }
}

impl Rectangle {
    /// A rectangle with the default configuration.
    pub fn new() -> (r: Self)
        ensures
            r == (Rectangle {
                width: Length::Shrink,
                height: Length::Fill,
                border_radius: 0,
                color_schema: ColorPattern::BackgroundBase,
                class: Class::Themed,
            }),
    {
        Rectangle::default()
    }

    /// Override the style resolution for this rectangle alone.
    pub fn class(self, class: Class) -> (r: Self)
        ensures
            r == (Rectangle { class, ..self }),
    {
        Rectangle { class, ..self }
    }

    /// Select the semantic color role.
    pub fn color_schema(self, color_schema: ColorPattern) -> (r: Self)
        ensures
            r == (Rectangle { color_schema, ..self }),
    {
        Rectangle { color_schema, ..self }
    }

    /// Set the corner rounding.
    pub fn border_radius(self, radius: usize) -> (r: Self)
        ensures
            r == (Rectangle { border_radius: radius, ..self }),
    {
        Rectangle { border_radius: radius, ..self }
    }

    /// Set the height policy.
    pub fn height(self, height: Length) -> (r: Self)
        ensures
            r == (Rectangle { height, ..self }),
    {
        Rectangle { height, ..self }
    }

    /// Set the width policy.
    pub fn width(self, width: Length) -> (r: Self)
        ensures
            r == (Rectangle { width, ..self }),
    {
        Rectangle { width, ..self }
    }

    /// The size policy the rectangle reports to its container.
    pub fn size(&self) -> (s: Sizing)
        ensures
            s == (Sizing { width: self.width, height: self.height }),
    {
        Sizing { width: self.width, height: self.height }
    }

    /// Atomic composition: each axis of the rectangle's declared size
    /// policy resolved directly against the limits.
    pub fn layout(&self, origin: Point, limits: &Limits) -> (r: Rect)
        requires
            limits.wf(),
        ensures
            r == atomic_spec(origin, *limits, self.width, self.height),
    {
        atomic(origin, limits, self.width, self.height)
    }

    /// Paint: one quad at the resolved bounds, filled with the style the
    /// rectangle's class resolves for its role under the current theme.
    pub fn draw(&self, theme: &Theme, bounds: Rect) -> (q: Quad)
        ensures
            q == (Quad {
                bounds,
                border_radius: self.border_radius,
                background: resolve_spec(*theme, self.class, self.color_schema).color,
            }),
    {
        let style = resolve(theme, &self.class, self.color_schema);
        Quad { bounds, border_radius: self.border_radius, background: style.color }
    }
}

} // verus!
