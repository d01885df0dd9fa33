//! Where a color comes from, and which display state is wanted.
//!
//! A [`Source`] is either a literal color or a path into a themed style
//! sheet; it is replaced wholesale, never mutated in place. A [`State`]
//! selects the target of the animated dimming progress: `Base` aims at 0
//! and `Dim` at 1.

use vstd::prelude::*;
use crate::color::Lcha;
use crate::path::Path;

verus! {

/// The fallback color of the default source: opaque red.
pub open spec fn spec_default_color() -> Lcha {
    Lcha { lightness: 53_200_000, chroma: 104_600_000, hue: 40_000_000, alpha: 1_000_000 }
}

/// The fallback color of the default source: opaque red.
pub fn default_color() -> (r: Lcha)
    ensures
        r == spec_default_color(),
{
    Lcha::new(53_200_000, 104_600_000, 40_000_000, 1_000_000)
}

/// Where a color comes from: a literal value, or a theme path.
#[derive(Debug)]
pub enum Source {
    Static { color: Lcha },
    Theme { path: Path },
}

impl Clone for Source {
    /// A copy of the source: a literal color is copied, a theme path keeps
    /// its segments.
    fn clone(&self) -> (r: Self)
        ensures
            match *self {
                Source::Static { color } => r == (Source::Static { color }),
                Source::Theme { path } => r matches Source::Theme { path: p } && p@ == path@,
            },
    {
        match self {
            Source::Static { color } => Source::Static { color: *color },
            Source::Theme { path } => Source::Theme { path: path.clone() },
        }
    }
}

impl Default for Source {
    /// The default source is the literal fallback color.
    fn default() -> (r: Self)
        ensures
            r == (Source::Static { color: spec_default_color() }),
    {
        Source::Static { color: default_color() }
    }
}

impl From<Lcha> for Source {
    fn from(color: Lcha) -> Self {
        Source::Static { color }
    }
}

impl vstd::std_specs::convert::FromSpecImpl<Lcha> for Source {
    open spec fn obeys_from_spec() -> bool {
        true
    }

    open spec fn from_spec(color: Lcha) -> Self {
        Source::Static { color }
    }
}

impl From<Path> for Source {
    fn from(path: Path) -> Self {
        Source::Theme { path }
    }
}

impl vstd::std_specs::convert::FromSpecImpl<Path> for Source {
    open spec fn obeys_from_spec() -> bool {
        true
    }

    open spec fn from_spec(path: Path) -> Self {
        Source::Theme { path }
    }
}

/// The wanted display state of the component's color.
#[derive(Clone, Copy, Debug, PartialEq, Eq, Structural)]
pub enum State {
    Base,
    Dim,
}

impl Default for State {
    /// The default display state shows the base color.
    fn default() -> (r: Self)
        ensures
            r == State::Base,
    {
        State::Base
    }
}

} // verus!
