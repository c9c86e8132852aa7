use vstd::prelude::*;

use crate::frame::Frame;
use crate::game::{Game, GameView};
use crate::rules::{
    best_completion_spec, best_frame, bonus_spec, frame_points, running_total, totals_spec,
};
use crate::score::Score;

verus! {

/// The last of the cumulative totals, or 0 where there is none.
pub open spec fn final_total(totals: Seq<nat>) -> nat {
    if totals.len() == 0 {
        0
    } else {
        totals.last()
    }
}

/// Every total can be held in a `usize`.
pub open spec fn all_fit(totals: Seq<nat>) -> bool {
    forall|i: int| 0 <= i < totals.len() ==> totals[i] <= usize::MAX
}

/// The computed numbers are the given totals, one for one.
pub open spec fn same_totals(computed: Seq<usize>, totals: Seq<nat>) -> bool {
    &&& computed.len() == totals.len()
    &&& forall|i: int| 0 <= i < computed.len() ==> computed[i] == totals[i]
}

/// The last of the computed totals, or 0 where no frame has been scored.
pub open spec fn last_or_zero(computed: Seq<usize>) -> usize {
    if computed.len() == 0 {
        0
    } else {
        computed.last()
    }
}

/// The current score, given the score after each frame: the last of them, or 0 where
/// no frame has been scored.
pub fn current_score(computed: &Vec<usize>) -> (total: usize)
    ensures
        total == last_or_zero(computed@),
{
    let n = computed.len();
    if n > 0 {
        computed[n - 1]
    } else {
        0
    }
}

/// A set of scoring rules.
///
/// A provider may state its rules as mathematics, in `totals` and `best_completion`,
/// and declare with `obeys_rules` that its methods compute exactly that; the
/// contracts below then hold of it. A provider that states nothing need only supply
/// `computed` and `max`, and nothing is claimed of what they return.
pub trait ScoreProvider: Clone + Copy {
    /// Whether the methods of this provider compute what `totals` and
    /// `best_completion` say.
    open spec fn obeys_rules() -> bool {
        false
    }

    /// The cumulative totals of `game` under these rules, one for each frame that
    /// takes part in scoring.
    open spec fn totals(&self, game: GameView) -> Seq<nat> {
        Seq::empty()
    }

    /// The best game that `game` can still become under these rules.
    open spec fn best_completion(&self, game: GameView) -> GameView {
        game
    }

    /// Calculate the score after each frame of a game.
    fn computed(&self, game: &Game) -> (computed: Vec<usize>)
        requires
            all_fit(self.totals(game@)),
        ensures
            Self::obeys_rules() ==> same_totals(computed@, self.totals(game@)),
    ;

    /// Calculate the current score of a game: the last of the scores that `computed`
    /// gives, or 0 where it gives none.
    fn score(&self, game: &Game) -> (total: usize)
        requires
            all_fit(self.totals(game@)),
        ensures
            Self::obeys_rules() ==> total == final_total(self.totals(game@)),
        default_ensures
            exists|computed: Vec<usize>|
                {
                    &&& #[trigger] call_ensures(Self::computed, (self, game), computed)
                    &&& total == last_or_zero(computed@)
                },
    {
        current_score(&self.computed(game))
    }

    /// Calculate the maximum score achievable for a game: the score of its best
    /// completion.
    fn max(&self, game: &Game) -> (best: usize)
        requires
            all_fit(self.totals(self.best_completion(game@))),
        ensures
            Self::obeys_rules() ==> best == final_total(self.totals(self.best_completion(game@))),
    ;
}

/// The rules of classic ten-pin bowling.
#[derive(Clone, Copy, Debug, Default, Eq, Hash, Ord, PartialEq, PartialOrd)]
pub struct TenPinScoreProvider;

impl TenPinScoreProvider {
    /// Calculate the points that the frame at `index` earns from the frames after it.
    pub fn bonus(game: &Game, index: usize) -> (bonus: usize)
        ensures
            bonus == bonus_spec(game@, index as int),
            bonus <= 20,
    {
        if game.frame_count == 0 || index >= game.frame_count - 1 {
            return 0;
        }
        let frame = match game.frame(index) {
            Some(frame) => frame,
            None => { return 0; },
        };
        let next = match game.frame(index + 1) {
            Some(next) => next,
            None => { return 0; },
        };
        if frame.is_spare() {
            next.first.value()
        } else if frame.is_strike() {
            let second_ball = if next.is_strike() {
                if index == game.frame_count - 2 {
                    next.second.value()
                } else {
                    match game.frame(index + 2) {
                        Some(after) => after.first.value(),
                        None => 0,
                    }
                }
            } else if next.is_spare() {
                10 - next.first.value()
            } else {
                let rest = 10 - next.first.value();
                if next.second.value() <= rest {
                    next.second.value()
                } else {
                    rest
                }
            };
            next.first.value() + second_ball
        } else {
            0
        }
    }
}

impl ScoreProvider for TenPinScoreProvider {
    open spec fn obeys_rules() -> bool {
        true
    }

    open spec fn totals(&self, game: GameView) -> Seq<nat> {
        totals_spec(game)
    }

    open spec fn best_completion(&self, game: GameView) -> GameView {
        best_completion_spec(game)
    }

    /// Calculate the score after each frame of a game: the frame's own value and its
    /// bonus from the frames after it, added to the score before it.
    fn computed(&self, game: &Game) -> (computed: Vec<usize>)
        ensures
            same_totals(computed@, totals_spec(game@)),
    {
        let mut frames: Vec<usize> = Vec::new();
        let mut score: usize = 0;

        for i in 0..game.frame_count
            invariant
                all_fit(totals_spec(game@)),
                frames@.len() == (if i <= game.frames@.len() {
                    i as int
                } else {
                    game.frames@.len() as int
                }),
                score == running_total(game@, frames@.len()),
                forall|j: int|
                    0 <= j < frames@.len() ==> frames@[j] == running_total(game@, (j + 1) as nat),
        {
            if let Some(frame) = game.frame(i) {
                assert(totals_spec(game@)[i as int] == running_total(game@, (i + 1) as nat));
                assert(running_total(game@, (i + 1) as nat) == score + frame_points(
                    game@,
                    i as int,
                ));
                score += frame.value() + Self::bonus(game, i);
                frames.push(score);
            }
        }

        frames
    }

    /// Calculate the maximum score achievable for a game: every open shot and every
    /// unplayed frame is filled in with the best that can still happen there, and
    /// the game made so is scored. A final frame without a bonus shot gains one only
    /// where it is a strike or a spare.
    fn max(&self, game: &Game) -> (best: usize) {
        let mut frames: Vec<Frame> = Vec::new();

        for i in 0..game.frame_count
            invariant
                frames@.len() == i,
                forall|j: int| 0 <= j < i ==> frames@[j] == best_frame(game@, j),
        {
            if let Some(frame) = game.frame(i) {
                if i == game.frame_count - 1 {
                    let mut f = frame.clone();

                    if f.first.is_empty() {
                        f.first = Score::STRIKE;
                    }
                    if f.second.is_empty() {
                        if f.first.is_strike() {
                            f.second = Score::STRIKE;
                        } else {
                            f.second = Score::SPARE;
                        }
                    }
                    let bonus_open = match frame.bonus {
                        Some(bonus) => bonus.is_empty(),
                        None => f.is_strike() || f.is_spare(),
                    };
                    if bonus_open {
                        if f.second.is_strike() {
                            f.bonus = Some(Score::STRIKE);
                        } else {
                            f.bonus = Some(Score::SPARE);
                        }
                    }
                    frames.push(f);
                } else if frame.first.is_strike() {
                    frames.push(Frame::strike());
                } else if frame.second.is_empty() {
                    frames.push(Frame::spare(frame.first.value()));
                } else {
                    frames.push(frame.clone());
                }
            } else if i == game.frame_count - 1 {
                frames.push(Frame::triple_strike());
            } else {
                frames.push(Frame::strike());
            }
        }

        let completed = Game::with_frame_count(game.frame_count, frames);
        assert(completed@.frames =~= best_completion_spec(game@).frames);
        self.score(&completed)
    }
}

} // verus!
