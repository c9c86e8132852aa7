use std::cmp::Ordering;
use vstd::prelude::*;
use vstd::std_specs::convert::IntoSpec;
use vstd::string::StringExecFns;

use crate::text::{decimal, decimal_spec};

verus! {

/// The outcome of one shot.
#[derive(Clone, Copy, Debug, Eq, Hash, PartialEq, Structural)]
pub enum Score {
    /// The shot has not been taken yet.
    EMPTY,
    /// The shot knocked down this many pins.
    PINS(usize),
    /// The shot completed a spare.
    SPARE,
    /// The shot was a strike.
    STRIKE,
}

impl Score {
    /// The points a shot is worth on its own: pin counts above ten count as ten.
    pub open spec fn value_spec(self) -> nat {
        match self {
            Score::EMPTY => 0,
            Score::PINS(n) => if n <= 10 { n as nat } else { 10 },
            Score::SPARE | Score::STRIKE => 10,
        }
    }

    /// Whether the shot cleared all pins at once: the strike marker, or ten or more pins.
    pub open spec fn is_strike_spec(self) -> bool {
        match self {
            Score::STRIKE => true,
            Score::PINS(n) => n >= 10,
            _ => false,
        }
    }

    /// Whether the shot has not been taken yet.
    pub open spec fn is_empty_spec(self) -> bool {
        self == Score::EMPTY
    }

    /// Where the shot stands in the order of shots: an empty shot with no pins, a pin
    /// count by its number, and the spare and strike markers together above every pin
    /// count.
    pub open spec fn rank_spec(self) -> int {
        match self {
            Score::EMPTY => 0,
            Score::PINS(n) => n as int,
            Score::SPARE | Score::STRIKE => usize::MAX + 1,
        }
    }

    /// The shot that a raw pin count stands for: a count of ten or more is a strike.
    pub open spec fn from_pins_spec(pins: usize) -> Score {
        if pins >= 10 {
            Score::STRIKE
        } else {
            Score::PINS(pins)
        }
    }

    /// The text of the shot: `<empty>` for a shot not taken, `-` for no pins, the
    /// decimal numeral for any other pin count, `/` for a spare and `X` for a strike.
    pub open spec fn text_spec(self) -> Seq<char> {
        match self {
            Score::EMPTY => "<empty>"@,
            Score::PINS(n) => if n == 0 {
                "-"@
            } else {
                decimal_spec(n as nat)
            },
            Score::SPARE => "/"@,
            Score::STRIKE => "X"@,
        }
    }

    /// Calculate the value of the shot.
    pub fn value(&self) -> (v: usize)
        ensures
            v == self.value_spec(),
            v <= 10,
    {
        match self {
            Score::EMPTY => 0,
            Score::PINS(n) => if *n <= 10 { *n } else { 10 },
            Score::SPARE | Score::STRIKE => 10,
        }
    }

    /// Check if the shot is a strike.
    pub fn is_strike(&self) -> (b: bool)
        ensures
            b == self.is_strike_spec(),
    {
        match self {
            Score::STRIKE => true,
            Score::PINS(n) => *n >= 10,
            _ => false,
        }
    }

    /// Read a shot from a raw pin count: a count of ten or more is a strike.
    pub fn from_pins(pins: usize) -> (score: Score)
        ensures
            score == Score::from_pins_spec(pins),
    {
        if pins >= 10 {
            return Score::STRIKE;
        }
        Score::PINS(pins)
    }

    /// Write the shot as text.
    pub fn to_string(&self) -> (text: String)
        ensures
            text@ == self.text_spec(),
    {
        match self {
            Score::EMPTY => String::from_str("<empty>"),
            Score::PINS(n) => if *n == 0 {
                String::from_str("-")
            } else {
                decimal(*n)
            },
            Score::SPARE => String::from_str("/"),
            Score::STRIKE => String::from_str("X"),
        }
    }

    /// Check if the shot has not been taken yet.
    pub fn is_empty(&self) -> (b: bool)
        ensures
            b == self.is_empty_spec(),
    {
        *self == Score::EMPTY
    }
}

impl Default for Score {
    /// The shot that has not been taken.
    fn default() -> (score: Score)
        ensures
            score == Score::EMPTY,
    {
        Score::EMPTY
    }
}

impl<V: Into<usize>> From<V> for Score {
    /// Read a shot from a raw pin count: a count of ten or more is a strike.
    fn from(value: V) -> (score: Score) {
        Score::from_pins(value.into())
    }
}

impl<V: Into<usize>> vstd::std_specs::convert::FromSpecImpl<V> for Score {
    open spec fn obeys_from_spec() -> bool {
        V::obeys_into_spec()
    }

    open spec fn from_spec(value: V) -> Score {
        Score::from_pins_spec(value.into_spec())
    }
}

impl PartialOrd for Score {
    /// Compare two shots by rank: empty shots equal no pins, pin counts compare by
    /// their numbers, and the spare and strike markers equal each other and exceed
    /// every pin count.
    fn partial_cmp(&self, other: &Self) -> (order: Option<Ordering>) {
        Some(
            match (self, other) {
                (Score::SPARE | Score::STRIKE, Score::SPARE | Score::STRIKE) => Ordering::Equal,
                (Score::SPARE | Score::STRIKE, _) => Ordering::Greater,
                (_, Score::SPARE | Score::STRIKE) => Ordering::Less,
                (Score::EMPTY, Score::EMPTY) => Ordering::Equal,
                (Score::EMPTY, Score::PINS(b)) => if *b == 0 {
                    Ordering::Equal
                } else {
                    Ordering::Less
                },
                (Score::PINS(a), Score::EMPTY) => if *a == 0 {
                    Ordering::Equal
                } else {
                    Ordering::Greater
                },
                (Score::PINS(a), Score::PINS(b)) => if *a < *b {
                    Ordering::Less
                } else if *a == *b {
                    Ordering::Equal
                } else {
                    Ordering::Greater
                },
            },
        )
    }
}

impl vstd::std_specs::cmp::PartialOrdSpecImpl for Score {
    open spec fn obeys_partial_cmp_spec() -> bool {
        true
    }

    open spec fn partial_cmp_spec(&self, other: &Score) -> Option<Ordering> {
        if self.rank_spec() < other.rank_spec() {
            Some(Ordering::Less)
        } else if self.rank_spec() == other.rank_spec() {
            Some(Ordering::Equal)
        } else {
            Some(Ordering::Greater)
        }
    }
}

} // verus!
