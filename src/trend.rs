use vstd::prelude::*;

verus! {

/// Direction of a bar relative to the bar before it.
#[derive(Clone, Copy, Debug, PartialEq, Eq, Structural)]
pub enum Trend {
    Up,
    Down,
}

/// The trend of a bar whose high + low + close is (`rising`) or is not
/// strictly above that of the previous bar. Equality counts as down.
pub open spec fn trend_of(rising: bool) -> Trend {
    if rising {
        Trend::Up
    } else {
        Trend::Down
    }
}

impl Trend {
    /// +1 for an up bar, -1 for a down bar.
    pub open spec fn sign_spec(self) -> int {
        match self {
            Trend::Up => 1,
            Trend::Down => -1,
        }
    }

    pub fn from_rising(rising: bool) -> (r: Trend)
        ensures
            r == trend_of(rising),
    {
        if rising {
            Trend::Up
        } else {
            Trend::Down
        }
    }

    pub fn sign(&self) -> (r: i8)
        ensures
            r as int == self.sign_spec(),
    {
        match self {
            Trend::Up => 1,
            Trend::Down => -1,
        }
    }
}

} // verus!
