//! The closed set of semantic color roles: a theme-independent handle into
//! a theme's palette, five groups in three strengths each.

use vstd::prelude::*;

verus! {

/// A semantic color role. Components select one of these instead of a
/// concrete color; the style catalog resolves it against the current theme.
#[derive(Clone, Copy, Debug, PartialEq, Eq, Structural)]
pub enum ColorPattern {
    BackgroundBase,
    BackgroundStrong,
    BackgroundWeak,
    DangerBase,
    DangerStrong,
    DangerWeak,
    PrimaryBase,
    PrimaryStrong,
    PrimaryWeak,
    SecondaryBase,
    SecondaryStrong,
    SecondaryWeak,
    SuccessBase,
    SuccessStrong,
    SuccessWeak,
}

impl Default for ColorPattern {
    /// The neutral role a component starts with.
    fn default() -> (c: Self)
        ensures
            c == ColorPattern::BackgroundBase,
    {
        ColorPattern::BackgroundBase
    }
}

impl ColorPattern {
    /// The stable name of this role, as exposed to UI pickers and persisted
    /// theme-mapping configuration.
    pub open spec fn name_spec(self) -> Seq<char> {
        match self {
            ColorPattern::BackgroundBase => "BackgroundBase"@,
            ColorPattern::BackgroundStrong => "BackgroundStrong"@,
            ColorPattern::BackgroundWeak => "BackgroundWeak"@,
            ColorPattern::DangerBase => "DangerBase"@,
            ColorPattern::DangerStrong => "DangerStrong"@,
            ColorPattern::DangerWeak => "DangerWeak"@,
            ColorPattern::PrimaryBase => "PrimaryBase"@,
            ColorPattern::PrimaryStrong => "PrimaryStrong"@,
            ColorPattern::PrimaryWeak => "PrimaryWeak"@,
            ColorPattern::SecondaryBase => "SecondaryBase"@,
            ColorPattern::SecondaryStrong => "SecondaryStrong"@,
            ColorPattern::SecondaryWeak => "SecondaryWeak"@,
            ColorPattern::SuccessBase => "SuccessBase"@,
            ColorPattern::SuccessStrong => "SuccessStrong"@,
            ColorPattern::SuccessWeak => "SuccessWeak"@,
        }
    }

    /// The stable name of this role.
    pub fn name(&self) -> (r: &'static str)
        ensures
            r@ == self.name_spec(),
    {
        match self {
            ColorPattern::BackgroundBase => "BackgroundBase",
            ColorPattern::BackgroundStrong => "BackgroundStrong",
            ColorPattern::BackgroundWeak => "BackgroundWeak",
            ColorPattern::DangerBase => "DangerBase",
            ColorPattern::DangerStrong => "DangerStrong",
            ColorPattern::DangerWeak => "DangerWeak",
            ColorPattern::PrimaryBase => "PrimaryBase",
            ColorPattern::PrimaryStrong => "PrimaryStrong",
            ColorPattern::PrimaryWeak => "PrimaryWeak",
            ColorPattern::SecondaryBase => "SecondaryBase",
            ColorPattern::SecondaryStrong => "SecondaryStrong",
            ColorPattern::SecondaryWeak => "SecondaryWeak",
            ColorPattern::SuccessBase => "SuccessBase",
            ColorPattern::SuccessStrong => "SuccessStrong",
            ColorPattern::SuccessWeak => "SuccessWeak",
        }
    }

    /// The fixed, ordered list of all roles.
    pub open spec fn all_spec() -> Seq<ColorPattern> {
        seq![
            ColorPattern::BackgroundBase,
            ColorPattern::BackgroundStrong,
            ColorPattern::BackgroundWeak,
            ColorPattern::DangerBase,
            ColorPattern::DangerStrong,
            ColorPattern::DangerWeak,
            ColorPattern::PrimaryBase,
            ColorPattern::PrimaryStrong,
            ColorPattern::PrimaryWeak,
            ColorPattern::SecondaryBase,
            ColorPattern::SecondaryStrong,
            ColorPattern::SecondaryWeak,
            ColorPattern::SuccessBase,
            ColorPattern::SuccessStrong,
            ColorPattern::SuccessWeak,
        ]
    }

    /// All roles, in their fixed order, for UI pickers.
    pub fn all() -> (v: Vec<ColorPattern>)
        ensures
            v@ == ColorPattern::all_spec(),
    {
        let mut v: Vec<ColorPattern> = Vec::new();
        v.push(ColorPattern::BackgroundBase);
        v.push(ColorPattern::BackgroundStrong);
        v.push(ColorPattern::BackgroundWeak);
        v.push(ColorPattern::DangerBase);
        v.push(ColorPattern::DangerStrong);
        v.push(ColorPattern::DangerWeak);
        v.push(ColorPattern::PrimaryBase);
        v.push(ColorPattern::PrimaryStrong);
        v.push(ColorPattern::PrimaryWeak);
        v.push(ColorPattern::SecondaryBase);
        v.push(ColorPattern::SecondaryStrong);
        v.push(ColorPattern::SecondaryWeak);
        v.push(ColorPattern::SuccessBase);
        v.push(ColorPattern::SuccessStrong);
        v.push(ColorPattern::SuccessWeak);
        proof {
            assert(v@ =~= ColorPattern::all_spec());
        }
        v
    }
}

} // verus!
