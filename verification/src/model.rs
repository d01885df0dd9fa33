//! The color resolver: owns the current source and resolves its base and
//! dimmed colors against a style sheet.
//!
//! For a theme source the dimmed color is resolved in two tiers: an explicit
//! override stored at a derived sibling "variant" path wins; where none is
//! stored, a derived color is computed from the base color by scaling its
//! lightness and chroma by two independently configured factors, keeping hue
//! and alpha.

use vstd::prelude::*;
use vstd::arithmetic::div_mod::lemma_div_by_multiple;
use vstd::arithmetic::div_mod::lemma_div_is_ordered;
use vstd::string::StringExecFns;
use crate::color::Lcha;
use crate::color::UnitRatio;
use crate::color::SCALE;
use crate::color::mix;
use crate::color::mix_spec;
use crate::color::lemma_mix_endpoints;
use crate::path::Path;
use crate::source::Source;
use crate::source::spec_default_color;
use crate::style::StyleSheet;
use crate::style::StyleValue;
use crate::style::lemma_number_or_wf;

verus! {

/// The marker segment under which a theme encodes variant overrides.
pub open spec fn variant_marker() -> Seq<char> {
    " variant "@
}

/// The variant suffix naming the dimmed appearance.
pub open spec fn dimmed_key() -> Seq<char> {
    "dimmed"@
}

/// The sibling path holding a variant override: the last segment is dropped,
/// then the marker segment and the variant's name are appended.
pub open spec fn variant_path_spec(p: Seq<Seq<char>>, extension: Seq<char>) -> Seq<Seq<char>> {
    let parent = if p.len() == 0 {
        p
    } else {
        p.drop_last()
    };
    parent.push(variant_marker()).push(extension)
}

/// The theme path holding the configured lightness factor of the derived
/// dimming transform.
pub open spec fn lightness_factor_path_view() -> Seq<Seq<char>> {
    seq!["graph_editor"@, "colors"@, "default"@, "dimming"@, "lightness_factor"@]
}

/// The theme path holding the configured chroma factor of the derived
/// dimming transform.
pub open spec fn chroma_factor_path_view() -> Seq<Seq<char>> {
    seq!["graph_editor"@, "colors"@, "default"@, "dimming"@, "chroma_factor"@]
}

/// Builds the theme path of the configured dimming lightness factor.
pub fn lightness_factor_path() -> (r: Path)
    ensures
        r@ == lightness_factor_path_view(),
{
    let mut segments: Vec<String> = Vec::new();
    segments.push(String::from_str("graph_editor"));
    segments.push(String::from_str("colors"));
    segments.push(String::from_str("default"));
    segments.push(String::from_str("dimming"));
    segments.push(String::from_str("lightness_factor"));
    let r = Path::from_segments(segments);
    proof {
        assert(r@ =~= lightness_factor_path_view());
    }
    r
}

/// Builds the theme path of the configured dimming chroma factor.
pub fn chroma_factor_path() -> (r: Path)
    ensures
        r@ == chroma_factor_path_view(),
{
    let mut segments: Vec<String> = Vec::new();
    segments.push(String::from_str("graph_editor"));
    segments.push(String::from_str("colors"));
    segments.push(String::from_str("default"));
    segments.push(String::from_str("dimming"));
    segments.push(String::from_str("chroma_factor"));
    let r = Path::from_segments(segments);
    proof {
        assert(r@ =~= chroma_factor_path_view());
    }
    r
}

/// A component scaled down by a unit-interval factor.
pub open spec fn scale_spec(x: int, f: int) -> int {
    (x * f) / (SCALE as int)
}

/// Scales one fixed-point component by a unit-interval factor, rounding down.
fn scale_component(x: u32, f: UnitRatio) -> (r: u32)
    requires
        f.wf(),
    ensures
        r == scale_spec(x as int, f.num as int),
        r <= x,
{
    proof {
        assert(0 <= (x as int) * (f.num as int) <= (x as int) * (SCALE as int))
            by (nonlinear_arith)
            requires
                0 <= x as int,
                0 <= f.num as int <= SCALE as int,
        {
        }
        lemma_div_is_ordered((x as int) * (f.num as int), (x as int) * (SCALE as int), SCALE as int);
        lemma_div_by_multiple(x as int, SCALE as int);
    }
    (((x as u64) * (f.num as u64)) / (SCALE as u64)) as u32
}

/// The resolver: the current color source, and the style sheet it is
/// resolved against.
#[derive(Debug)]
pub struct Model {
    pub color_source: Source,
    pub styles: StyleSheet,
}

impl Model {
    /// The resolver is well-formed when its style sheet is.
    pub open spec fn wf(self) -> bool {
        self.styles.wf()
    }

    /// The base color: a literal source yields its value; a theme source is
    /// looked up in the style sheet, which answers with its own fallback
    /// where nothing is stored.
    pub open spec fn spec_base_color(self) -> Lcha {
        match self.color_source {
            Source::Static { color } => color,
            Source::Theme { path } => self.styles.spec_color(path@),
        }
    }

    /// The explicit variant override for suffix `id`, where the source is a
    /// theme path and a color is stored at the derived variant path.
    pub open spec fn spec_variant_color(self, id: Seq<char>) -> Option<Lcha> {
        match self.color_source {
            Source::Theme { path } => match self.styles.spec_get(
                variant_path_spec(path@, id),
            ) {
                Some(StyleValue::Color(c)) => Some(c),
                _ => None,
            },
            Source::Static { .. } => None,
        }
    }

    /// The derived dimming transform: lightness and chroma scaled by the two
    /// configured factors (0 where unconfigured), hue and alpha kept.
    pub open spec fn spec_make_dimmed(self, color: Lcha) -> Lcha {
        let lf = self.styles.spec_number_or(lightness_factor_path_view(), UnitRatio { num: 0 });
        let cf = self.styles.spec_number_or(chroma_factor_path_view(), UnitRatio { num: 0 });
        Lcha {
            lightness: scale_spec(color.lightness as int, lf.num as int) as u32,
            chroma: scale_spec(color.chroma as int, cf.num as int) as u32,
            hue: color.hue,
            alpha: color.alpha,
        }
    }

    /// The resolved dimmed color: the explicit override where one is stored,
    /// else the derived dimming transform of the base color.
    pub open spec fn spec_dimmed_color(self) -> Lcha {
        match self.spec_variant_color(dimmed_key()) {
            Some(c) => c,
            None => self.spec_make_dimmed(self.spec_base_color()),
        }
    }

    /// The color at dimming progress `n / SCALE`: the blend of the base and
    /// the resolved dimmed color.
    pub open spec fn spec_color_dimmed(self, n: int) -> Lcha {
        mix_spec(self.spec_base_color(), self.spec_dimmed_color(), n)
    }

    /// A resolver over `styles`, starting from the default source.
    pub fn new(styles: StyleSheet) -> (r: Model)
        ensures
            r.styles == styles,
            r.color_source == (Source::Static { color: spec_default_color() }),
    {
        let color_source = Source::default();
        Model { color_source, styles }
    }

    /// Replaces the owned source unconditionally.
    pub fn set_source(&mut self, source: Source)
        ensures
            final(self).color_source == source,
            final(self).styles == old(self).styles,
    {
        self.color_source = source;
    }

    /// Derives the sibling variant path: drops the path's last segment, then
    /// appends the marker segment and `extension`.
    pub fn variant_path(path: Path, extension: String) -> (r: Path)
        ensures
            r@ == variant_path_spec(path@, extension@),
    {
        let mut segments = path.segments;
        if segments.len() > 0 {
            segments.pop();
        }
        segments.push(String::from_str(" variant "));
        segments.push(extension);
        let r = Path::from_segments(segments);
        proof {
            assert(r@ =~= variant_path_spec(path@, extension@));
        }
        r
    }

    /// Looks the explicit variant override for suffix `id` up in the style
    /// sheet; `None` for a literal source, or where no color is stored at
    /// the derived variant path.
    pub fn try_get_color_variant_from_theme(&self, id: &str) -> (r: Option<Lcha>)
        ensures
            r == self.spec_variant_color(id@),
    {
        match &self.color_source {
            Source::Theme { path } => {
                let vpath = Self::variant_path(path.clone(), String::from_str(id));
                match self.styles.get(&vpath) {
                    Some(StyleValue::Color(c)) => Some(c),
                    _ => None,
                }
            },
            Source::Static { .. } => None,
        }
    }

    /// Resolves the base color of the current source.
    pub fn get_base_color(&self) -> (r: Lcha)
        ensures
            r == self.spec_base_color(),
    {
        match &self.color_source {
            Source::Static { color } => *color,
            Source::Theme { path } => self.styles.get_color(path),
        }
    }

    /// Computes the derived dimmed color of `color`: lightness and chroma are
    /// scaled by the configured factors, hue and alpha kept.
    pub fn make_dimmed_color(&self, color: Lcha) -> (r: Lcha)
        requires
            self.wf(),
        ensures
            r == self.spec_make_dimmed(color),
    {
        let lf_path = lightness_factor_path();
        let cf_path = chroma_factor_path();
        let lf = self.styles.get_number_or(&lf_path, UnitRatio::zero());
        let cf = self.styles.get_number_or(&cf_path, UnitRatio::zero());
        proof {
            lemma_number_or_wf(self.styles, lightness_factor_path_view(), UnitRatio { num: 0 });
            lemma_number_or_wf(self.styles, chroma_factor_path_view(), UnitRatio { num: 0 });
        }
        let lightness = scale_component(color.lightness, lf);
        let chroma = scale_component(color.chroma, cf);
        Lcha::new(lightness, chroma, color.hue, color.alpha)
    }

    /// The color at dimming progress `dimmness`: blends the base color with
    /// the resolved dimmed color (explicit override first, derived transform
    /// as the fallback).
    pub fn get_color_dimmed(&self, dimmness: UnitRatio) -> (r: Lcha)
        requires
            self.wf(),
            dimmness.wf(),
        ensures
            r == self.spec_color_dimmed(dimmness.num as int),
    {
        let base_color = self.get_base_color();
        let dimmed_color = match self.try_get_color_variant_from_theme("dimmed") {
            None => self.make_dimmed_color(base_color),
            Some(color) => color,
        };
        mix(base_color, dimmed_color, dimmness)
    }
}

/// Law: an explicit theme override stored at the derived variant path always
/// wins over the computed dimming transform, whatever factors are configured.
pub proof fn lemma_explicit_override_wins(m: Model, path: Path, c: Lcha)
    requires
        m.color_source == (Source::Theme { path }),
        m.styles.spec_get(variant_path_spec(path@, dimmed_key())) == Some(StyleValue::Color(c)),
    ensures
        m.spec_dimmed_color() == c,
{
}

/// Law: a dimming progress of exactly 0 reproduces the base color, and a
/// progress of exactly 1 the resolved dimmed color, component for component.
pub proof fn lemma_color_dimmed_endpoints(m: Model)
    ensures
        m.spec_color_dimmed(0) == m.spec_base_color(),
        m.spec_color_dimmed(SCALE as int) == m.spec_dimmed_color(),
{
    lemma_mix_endpoints(m.spec_base_color(), m.spec_dimmed_color());
}

} // verus!
