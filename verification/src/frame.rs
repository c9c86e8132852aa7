use vstd::prelude::*;
use vstd::std_specs::convert::IntoSpec;
use vstd::string::StringExecFns;

use crate::score::Score;

verus! {

/// A bowling frame: two shots, and a bonus shot where the frame rewards one.
#[derive(Clone, Copy, Debug, Eq, Hash, PartialEq)]
pub struct Frame {
    /// The first shot of the frame.
    pub first: Score,
    /// The second shot of the frame.
    pub second: Score,
    /// The optional bonus shot of the frame.
    pub bonus: Option<Score>,
}

impl Frame {
    /// Whether the first shot cleared all pins.
    pub open spec fn is_strike_spec(self) -> bool {
        self.first.is_strike_spec()
    }

    /// Whether the two shots together cleared all pins without the first being a strike.
    pub open spec fn is_spare_spec(self) -> bool {
        !self.is_strike_spec() && (self.second == Score::SPARE || self.first.value_spec()
            + self.second.value_spec() == 10)
    }

    /// What the two ordinary shots are worth before any cap: a spare marker completes
    /// the ten, and the second shot after a strike counts only when a bonus shot
    /// follows it in the same frame.
    pub open spec fn shots_spec(self) -> nat {
        if self.second == Score::SPARE {
            10
        } else if !self.first.is_strike_spec() || self.bonus is Some {
            self.first.value_spec() + self.second.value_spec()
        } else {
            self.first.value_spec()
        }
    }

    /// What the frame is worth on its own, without bonuses earned from later frames:
    /// at most 10 without a bonus shot and at most 30 with one.
    pub open spec fn value_spec(self) -> nat {
        match self.bonus {
            Some(bonus) => {
                let extra = if bonus == Score::SPARE {
                    (10 - self.second.value_spec()) as nat
                } else {
                    bonus.value_spec()
                };
                if self.shots_spec() + extra <= 30 {
                    self.shots_spec() + extra
                } else {
                    30
                }
            },
            None => if self.shots_spec() <= 10 {
                self.shots_spec()
            } else {
                10
            },
        }
    }

    /// The frame in which nothing has been played.
    pub open spec fn empty_spec() -> Frame {
        Frame { first: Score::EMPTY, second: Score::EMPTY, bonus: None }
    }

    /// The frame of `pins` pins followed by a spare.
    pub open spec fn spare_spec(pins: usize) -> Frame {
        Frame { first: Score::PINS(pins), second: Score::SPARE, bonus: None }
    }

    /// The frame of one strike.
    pub open spec fn strike_spec() -> Frame {
        Frame { first: Score::STRIKE, second: Score::EMPTY, bonus: None }
    }

    /// The frame of three strikes: the best final frame.
    pub open spec fn triple_strike_spec() -> Frame {
        Frame { first: Score::STRIKE, second: Score::STRIKE, bonus: Some(Score::STRIKE) }
    }

    /// The text of the frame: `Frame[X]` for a strike without a bonus shot, and
    /// otherwise the texts of its shots, the bonus shot among them where there is
    /// one, between `Frame[` and `]` with `, ` between them.
    pub open spec fn text_spec(self) -> Seq<char> {
        match self.bonus {
            Some(bonus) => "Frame["@ + self.first.text_spec() + ", "@ + self.second.text_spec()
                + ", "@ + bonus.text_spec() + "]"@,
            None => if self.is_strike_spec() {
                "Frame[X]"@
            } else {
                "Frame["@ + self.first.text_spec() + ", "@ + self.second.text_spec() + "]"@
            },
        }
    }

    /// Create a new frame from its two shots.
    pub fn new(first: Score, second: Score) -> (frame: Frame)
        ensures
            frame == (Frame { first, second, bonus: None }),
    {
        Frame { first, second, bonus: None }
    }

    /// Create a new frame with a bonus shot.
    pub fn with_bonus(first: Score, second: Score, bonus: Score) -> (frame: Frame)
        ensures
            frame == (Frame { first, second, bonus: Some(bonus) }),
    {
        Frame { first, second, bonus: Some(bonus) }
    }

    /// Create an empty frame.
    pub fn empty() -> (frame: Frame)
        ensures
            frame == Frame::empty_spec(),
    {
        Frame { first: Score::EMPTY, second: Score::EMPTY, bonus: None }
    }

    /// Create a new spare frame.
    pub fn spare(value: usize) -> (frame: Frame)
        ensures
            frame == Frame::spare_spec(value),
    {
        Frame::new(Score::PINS(value), Score::SPARE)
    }

    /// Create a new strike frame.
    pub fn strike() -> (frame: Frame)
        ensures
            frame == Frame::strike_spec(),
    {
        Frame::new(Score::STRIKE, Score::EMPTY)
    }

    /// Create a new frame with three strikes.
    pub fn triple_strike() -> (frame: Frame)
        ensures
            frame == Frame::triple_strike_spec(),
    {
        Frame::with_bonus(Score::STRIKE, Score::STRIKE, Score::STRIKE)
    }

    /// Write the frame as text.
    pub fn to_string(&self) -> (text: String)
        ensures
            text@ == self.text_spec(),
    {
        if let Some(bonus) = self.bonus {
            let mut text = String::from_str("Frame[");
            text.append(self.first.to_string().as_str());
            text.append(", ");
            text.append(self.second.to_string().as_str());
            text.append(", ");
            text.append(bonus.to_string().as_str());
            text.append("]");
            return text;
        }
        if self.is_strike() {
            return String::from_str("Frame[X]");
        }
        let mut text = String::from_str("Frame[");
        text.append(self.first.to_string().as_str());
        text.append(", ");
        text.append(self.second.to_string().as_str());
        text.append("]");
        text
    }

    /// Check if the frame is a spare.
    pub fn is_spare(&self) -> (b: bool)
        ensures
            b == self.is_spare_spec(),
    {
        !self.is_strike() && (self.second == Score::SPARE || self.first.value()
            + self.second.value() == 10)
    }

    /// Check if the frame is a strike.
    pub fn is_strike(&self) -> (b: bool)
        ensures
            b == self.is_strike_spec(),
    {
        self.first.is_strike()
    }

    /// Calculate the value of the frame.
    pub fn value(&self) -> (v: usize)
        ensures
            v == self.value_spec(),
            v <= 30,
            self.bonus is None ==> v <= 10,
    {
        let mut value = self.first.value();

        if self.second == Score::SPARE {
            value += 10 - value;
        } else if !self.first.is_strike() || self.bonus.is_some() {
            value += self.second.value();
        }

        if let Some(bonus) = self.bonus {
            if bonus == Score::SPARE {
                value += 10 - self.second.value();
            } else {
                value += bonus.value();
            }

            if value > 30 {
                value = 30;
            }
        } else if value > 10 {
            value = 10;
        }

        value
    }
}

impl Default for Frame {
    /// The frame in which nothing has been played.
    fn default() -> (frame: Frame)
        ensures
            frame == Frame::empty_spec(),
    {
        Frame::empty()
    }
}

impl<V: Into<usize> + Copy> From<[V; 2]> for Frame {
    /// The frame of two shots given by their pin counts.
    fn from(value: [V; 2]) -> (frame: Frame) {
        Frame::new(Score::PINS(value[0].into()), Score::PINS(value[1].into()))
    }
}

impl<V: Into<usize> + Copy> vstd::std_specs::convert::FromSpecImpl<[V; 2]> for Frame {
    open spec fn obeys_from_spec() -> bool {
        V::obeys_into_spec()
    }

    open spec fn from_spec(value: [V; 2]) -> Frame {
        Frame {
            first: Score::PINS(value[0].into_spec()),
            second: Score::PINS(value[1].into_spec()),
            bonus: None,
        }
    }
}

impl<V: Into<usize> + Copy> From<[V; 3]> for Frame {
    /// The frame of two shots and a bonus shot given by their pin counts.
    fn from(value: [V; 3]) -> (frame: Frame) {
        Frame::with_bonus(
            Score::PINS(value[0].into()),
            Score::PINS(value[1].into()),
            Score::PINS(value[2].into()),
        )
    }
}

impl<V: Into<usize> + Copy> vstd::std_specs::convert::FromSpecImpl<[V; 3]> for Frame {
    open spec fn obeys_from_spec() -> bool {
        V::obeys_into_spec()
    }

    open spec fn from_spec(value: [V; 3]) -> Frame {
        Frame {
            first: Score::PINS(value[0].into_spec()),
            second: Score::PINS(value[1].into_spec()),
            bonus: Some(Score::PINS(value[2].into_spec())),
        }
    }
}

impl<V: Into<usize> + Copy> From<Vec<V>> for Frame {
    /// The frame of up to three shots given by their pin counts: first shot, second
    /// shot and bonus shot. A count that is missing leaves its shot empty.
    fn from(value: Vec<V>) -> (frame: Frame) {
        let first = if value.len() > 0 {
            Score::PINS(value[0].into())
        } else {
            Score::EMPTY
        };
        let second = if value.len() > 1 {
            Score::PINS(value[1].into())
        } else {
            Score::EMPTY
        };
        let bonus = if value.len() > 2 {
            Some(Score::PINS(value[2].into()))
        } else {
            None
        };
        Frame { first, second, bonus }
    }
}

impl<V: Into<usize> + Copy> vstd::std_specs::convert::FromSpecImpl<Vec<V>> for Frame {
    open spec fn obeys_from_spec() -> bool {
        V::obeys_into_spec()
    }

    open spec fn from_spec(value: Vec<V>) -> Frame {
        Frame {
            first: if value@.len() > 0 {
                Score::PINS(value@[0].into_spec())
            } else {
                Score::EMPTY
            },
            second: if value@.len() > 1 {
                Score::PINS(value@[1].into_spec())
            } else {
                Score::EMPTY
            },
            bonus: if value@.len() > 2 {
                Some(Score::PINS(value@[2].into_spec()))
            } else {
                None
            },
        }
    }
}

} // verus!
