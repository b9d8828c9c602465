use vstd::prelude::*;

verus! {

/// Period, in milliseconds, at which the physical inputs are sampled.
///
/// Bounces shorter than this period are never seen: sampling slowly is the
/// whole of the debouncing.
pub const POLL_PERIOD_MS: u64 = 100;

/// What two consecutive samples of an input say about it.
#[derive(Clone, Copy, Debug, PartialEq, Eq, Structural)]
pub enum ButtonEdge {
    /// The input went from low to high.
    Pressed,
    /// The input went from high to low.
    Released,
    /// The input kept its level.
    Steady,
}

/// The edge that a new sample `level` makes after the stable level `last`.
pub open spec fn edge_of(last: bool, level: bool) -> ButtonEdge {
    if last == level {
        ButtonEdge::Steady
    } else if level {
        ButtonEdge::Pressed
    } else {
        ButtonEdge::Released
    }
}

/// Remembers the last reported level of one input and reports its edges.
#[derive(Clone, Copy, Debug)]
pub struct EdgeDetector {
    stable: bool,
}

impl EdgeDetector {
    /// The level last reported.
    pub closed spec fn level(&self) -> bool {
        self.stable
    }

    /// A detector whose input was last seen at `initial`.
    pub fn new(initial: bool) -> (r: Self)
        ensures
            r.level() == initial,
    {
        EdgeDetector { stable: initial }
    }

    /// The level last reported.
    pub fn stable_level(&self) -> (r: bool)
        ensures
            r == self.level(),
    {
        self.stable
    }

    /// Takes one sample and reports the edge it makes, if any; the sample
    /// becomes the stable level.
    pub fn sample(&mut self, level: bool) -> (r: ButtonEdge)
        ensures
            r == edge_of(old(self).level(), level),
            final(self).level() == level,
    {
        let last = self.stable;
        self.stable = level;
        if last == level {
            ButtonEdge::Steady
        } else if level {
            ButtonEdge::Pressed
        } else {
            ButtonEdge::Released
        }
    }
}

} // verus!
