use vstd::prelude::*;
use crate::signal::Signal;

verus! {

/// Levels of the two machine-state indicator outputs.
#[derive(Clone, Copy, Debug, PartialEq, Eq, Structural)]
pub struct LedPair {
    /// The "machine on" indicator.
    pub on: bool,
    /// The "machine off" indicator.
    pub off: bool,
}

/// Exactly one of the two indicators is lit.
pub open spec fn complementary(p: LedPair) -> bool {
    p.on != p.off
}

/// The indicator levels that show the machine sensor at `running`.
pub open spec fn leds_for(running: bool) -> LedPair {
    LedPair { on: running, off: !running }
}

/// The indicator levels after the actuator, starting at `start`, was handed
/// each of `levels` in turn.
pub open spec fn leds_after(start: LedPair, levels: Seq<bool>) -> LedPair
    decreases levels.len(),
{
    if levels.len() == 0 {
        start
    } else {
        leds_after(leds_for(levels[0]), levels.drop_first())
    }
}

/// Drives the two indicators from the machine-running state.
#[derive(Clone, Copy, Debug)]
pub struct LedActuator {
    leds: LedPair,
}

impl LedActuator {
    #[verifier::type_invariant]
    spec fn inv(&self) -> bool {
        complementary(self.leds)
    }

    /// The levels the outputs are driven to.
    pub closed spec fn outputs(&self) -> LedPair {
        self.leds
    }

    /// Starts from the sensor's live level, so that the first levels shown
    /// are already right.
    pub fn new(initial_running: bool) -> (r: Self)
        ensures
            r.outputs() == leds_for(initial_running),
    {
        LedActuator { leds: LedPair { on: initial_running, off: !initial_running } }
    }

    /// The levels the outputs are driven to.
    pub fn levels(&self) -> (r: LedPair)
        ensures
            r == self.outputs(),
            complementary(r),
    {
        proof {
            use_type_invariant(self);
        }
        self.leds
    }

    /// Shows the machine at `running`.
    pub fn apply(&mut self, running: bool) -> (r: LedPair)
        ensures
            final(self).outputs() == leds_for(running),
            r == leds_for(running),
    {
        *self = LedActuator { leds: LedPair { on: running, off: !running } };
        self.leds
    }

    /// Consumes the pending machine state, if any, and returns the levels to
    /// drive; with nothing pending the outputs stay as they are.
    pub fn poll(&mut self, state: &mut Signal<bool>) -> (r: Option<LedPair>)
        ensures
            final(state).pending() is None,
            old(state).pending() matches Some(v) ==> r == Some(leds_for(v))
                && final(self).outputs() == leds_for(v),
            old(state).pending() is None ==> r is None && final(self).outputs() == old(
                self,
            ).outputs(),
    {
        match state.take() {
            Some(running) => Some(self.apply(running)),
            None => None,
        }
    }
}

/// The indicators are always complementary: starting from the levels for
/// the sensor's initial reading, after every prefix of any sequence of
/// sampled levels exactly one of them is lit.
pub proof fn lemma_leds_complementary(initial: bool, levels: Seq<bool>)
    ensures
        forall|k: int|
            0 <= k <= levels.len() ==> complementary(
                #[trigger] leds_after(leds_for(initial), levels.take(k)),
            ),
{
    assert forall|k: int| 0 <= k <= levels.len() implies complementary(
        #[trigger] leds_after(leds_for(initial), levels.take(k)),
    ) by {
        lemma_shown_levels_complementary(leds_for(initial), levels.take(k));
    }
}

proof fn lemma_shown_levels_complementary(start: LedPair, levels: Seq<bool>)
    requires
        complementary(start),
    ensures
        complementary(leds_after(start, levels)),
    decreases levels.len(),
{
    if levels.len() > 0 {
        lemma_shown_levels_complementary(leds_for(levels[0]), levels.drop_first());
    }
}

} // verus!
