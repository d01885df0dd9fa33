//! The dynamic color engine: the synchronous core of the reactive pipeline.
//!
//! The engine owns the current source, the wanted display state and the
//! latest dimming-progress sample. An outside animation collaborator eases
//! the progress toward the target that [`DynamicColor::set_state`] returns
//! and hands each sample to [`DynamicColor::progress_sample`]. Updates
//! combine by latest value: every source change and every progress sample
//! recomputes and publishes one color from the most recent pair.

use vstd::prelude::*;
use crate::color::Lcha;
use crate::color::UnitRatio;
use crate::color::SCALE;
use crate::color::lemma_mix_in_bounds;
use crate::color::lemma_mix_monotone;
use crate::model::Model;
use crate::source::Source;
use crate::source::State;
use crate::source::spec_default_color;
use crate::style::StyleSheet;

verus! {

/// The animation target selected by a display state: 0 for the base
/// appearance, 1 for the dimmed one.
pub open spec fn spec_state_target(state: State) -> UnitRatio {
    match state {
        State::Base => UnitRatio { num: 0 },
        State::Dim => UnitRatio { num: SCALE },
    }
}

/// The dynamic color engine.
#[derive(Debug)]
pub struct DynamicColor {
    pub model: Model,
    pub state: State,
    pub progress: UnitRatio,
}

impl DynamicColor {
    /// The engine is well-formed when its resolver is and its cached
    /// progress lies in the unit interval.
    pub open spec fn wf(self) -> bool {
        self.model.wf() && self.progress.wf()
    }

    /// The color the engine publishes for its current source and progress.
    pub open spec fn spec_color(self) -> Lcha {
        self.model.spec_color_dimmed(self.progress.num as int)
    }

    /// An engine over `styles`: default source, base state, progress 0.
    pub fn new(styles: StyleSheet) -> (r: DynamicColor)
        requires
            styles.wf(),
        ensures
            r.wf(),
            r.model.styles == styles,
            r.model.color_source == (Source::Static { color: spec_default_color() }),
            r.state == State::Base,
            r.progress.num == 0,
    {
        DynamicColor { model: Model::new(styles), state: State::Base, progress: UnitRatio::zero() }
    }

    /// Retargets the dimming animation: `Base` aims the progress at 0 and
    /// `Dim` at 1. Nothing is recomputed and nothing else changes; the
    /// returned target is for the outside animation collaborator.
    pub fn set_state(&mut self, state: State) -> (target: UnitRatio)
        ensures
            final(self).state == state,
            final(self).model == old(self).model,
            final(self).progress == old(self).progress,
            target == spec_state_target(state),
            target.wf(),
    {
        self.state = state;
        match state {
            State::Base => UnitRatio::zero(),
            State::Dim => UnitRatio::one(),
        }
    }

    /// Replaces the owned source, keeps the cached progress untouched, and
    /// publishes the color of the new source at that progress.
    pub fn set_source(&mut self, source: Source) -> (color: Lcha)
        requires
            old(self).wf(),
        ensures
            final(self).wf(),
            final(self).model.color_source == source,
            final(self).model.styles == old(self).model.styles,
            final(self).state == old(self).state,
            final(self).progress == old(self).progress,
            color == final(self).spec_color(),
    {
        self.model.set_source(source);
        self.model.get_color_dimmed(self.progress)
    }

    /// Takes the next eased progress sample from the animation collaborator,
    /// caches it, and publishes the color of the current source at it.
    pub fn progress_sample(&mut self, progress: UnitRatio) -> (color: Lcha)
        requires
            old(self).wf(),
            progress.wf(),
        ensures
            final(self).wf(),
            final(self).model == old(self).model,
            final(self).state == old(self).state,
            final(self).progress == progress,
            color == final(self).spec_color(),
    {
        self.progress = progress;
        self.model.get_color_dimmed(progress)
    }
}

/// Law: with a fixed source and style sheet, the colors published for a
/// rising run of progress samples move component-wise monotonically from the
/// base color toward the resolved dimmed color, staying between the two.
pub proof fn lemma_published_colors_monotone(m: Model, n1: int, n2: int)
    requires
        0 <= n1 <= n2 <= SCALE,
    ensures
        ({
            let base = m.spec_base_color();
            let dimmed = m.spec_dimmed_color();
            let c1 = m.spec_color_dimmed(n1);
            let c2 = m.spec_color_dimmed(n2);
            &&& (base.lightness <= dimmed.lightness ==> base.lightness <= c1.lightness
                <= c2.lightness <= dimmed.lightness)
            &&& (dimmed.lightness <= base.lightness ==> dimmed.lightness <= c2.lightness
                <= c1.lightness <= base.lightness)
            &&& (base.chroma <= dimmed.chroma ==> base.chroma <= c1.chroma <= c2.chroma
                <= dimmed.chroma)
            &&& (dimmed.chroma <= base.chroma ==> dimmed.chroma <= c2.chroma <= c1.chroma
                <= base.chroma)
            &&& (base.hue <= dimmed.hue ==> base.hue <= c1.hue <= c2.hue <= dimmed.hue)
            &&& (dimmed.hue <= base.hue ==> dimmed.hue <= c2.hue <= c1.hue <= base.hue)
            &&& (base.alpha <= dimmed.alpha ==> base.alpha <= c1.alpha <= c2.alpha
                <= dimmed.alpha)
            &&& (dimmed.alpha <= base.alpha ==> dimmed.alpha <= c2.alpha <= c1.alpha
                <= base.alpha)
        }),
{
    let base = m.spec_base_color();
    let dimmed = m.spec_dimmed_color();
    lemma_mix_in_bounds(base, dimmed, n1);
    lemma_mix_in_bounds(base, dimmed, n2);
    lemma_mix_monotone(base, dimmed, n1, n2);
}

} // verus!
