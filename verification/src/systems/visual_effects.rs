//! The visual effects of an entity, run once per tick.

use vstd::prelude::*;
use crate::effects::{VisualEffect, VisualEffects};

verus! {

/// The effects and the visibility after every effect, in its turn, has
/// ticked by `delta` milliseconds and has then acted on the visibility.
pub open spec fn visuals_run(effects: Seq<VisualEffect>, delta: u64, visible: bool) -> (
    Seq<VisualEffect>,
    bool,
)
    decreases effects.len(),
{
    if effects.len() == 0 {
        (effects, visible)
    } else {
        let (before, visible) = visuals_run(effects.drop_last(), delta, visible);
        let last = effects.last().ticked(delta);
        (before.push(last), last.shown(visible))
    }
}

/// Advances every visual effect by `delta` milliseconds and lets it act on
/// the visibility of the entity.
pub fn run_visual_effects(delta: u64, visual_effects: &mut VisualEffects, visible: &mut bool)
    ensures
        (final(visual_effects)@, *final(visible)) == visuals_run(
            old(visual_effects)@,
            delta,
            *old(visible),
        ),
{
    let mut i: usize = 0;
    while i < visual_effects.effects.len()
        invariant
            i <= visual_effects.effects.len(),
            visual_effects.effects.len() == old(visual_effects).effects.len(),
            (visual_effects@.take(i as int), *visible) == visuals_run(
                old(visual_effects)@.take(i as int),
                delta,
                *old(visible),
            ),
            forall|j: int|
                i <= j < visual_effects.effects.len() ==> (#[trigger] visual_effects@[j])
                    == old(visual_effects)@[j],
        decreases visual_effects.effects.len() - i,
    {
        let ghost before = visual_effects@;
        assert(old(visual_effects)@.take(i + 1).drop_last() == old(visual_effects)@.take(i as int));
        visual_effects.effects[i].tick(delta);
        visual_effects.effects[i].apply(visible);
        assert(visual_effects@.take(i as int) == before.take(i as int));
        assert(visual_effects@.take(i + 1) == visual_effects@.take(i as int).push(
            visual_effects@[i as int],
        ));
        i += 1;
    }
    assert(visual_effects@.take(i as int) == visual_effects@);
    assert(old(visual_effects)@.take(i as int) == old(visual_effects)@);
}

} // verus!
