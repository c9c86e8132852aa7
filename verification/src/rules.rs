//! The ten-pin scoring rules as mathematics: what each frame adds to the running
//! total, and the best game that a partly played game can still become.

use vstd::prelude::*;

use crate::frame::Frame;
use crate::game::GameView;
use crate::score::Score;

verus! {

/// What the second ball after a strike in frame `index` is worth, read from the
/// frame that follows, and from the one after that when the following frame is a
/// strike too. In the frame before the last, a following strike is the final frame,
/// which holds that second ball itself.
pub open spec fn second_ball_spec(game: GameView, index: int) -> nat
    recommends
        game.frame(index + 1) is Some,
{
    let next = game.frames[index + 1];
    if next.is_strike_spec() {
        if index + 2 == game.frame_count {
            next.second.value_spec()
        } else {
            match game.frame(index + 2) {
                Some(after) => after.first.value_spec(),
                None => 0,
            }
        }
    } else if next.is_spare_spec() {
        (10 - next.first.value_spec()) as nat
    } else if next.second.value_spec() <= 10 - next.first.value_spec() {
        next.second.value_spec()
    } else {
        (10 - next.first.value_spec()) as nat
    }
}

/// The points that frame `index` earns from the frames after it: nothing for the
/// last frame of the game or while the next frame is unplayed, the next ball for a
/// spare, the next two balls for a strike.
pub open spec fn bonus_spec(game: GameView, index: int) -> nat {
    if index + 1 < game.frame_count {
        match (game.frame(index), game.frame(index + 1)) {
            (Some(frame), Some(next)) => if frame.is_spare_spec() {
                next.first.value_spec()
            } else if frame.is_strike_spec() {
                next.first.value_spec() + second_ball_spec(game, index)
            } else {
                0
            },
            _ => 0,
        }
    } else {
        0
    }
}

/// Everything that frame `index` adds to the score: its own value and its bonus.
pub open spec fn frame_points(game: GameView, index: int) -> nat
    recommends
        game.frame(index) is Some,
{
    game.frames[index].value_spec() + bonus_spec(game, index)
}

/// The score after the first `n` frames.
pub open spec fn running_total(game: GameView, n: nat) -> nat
    decreases n,
{
    if n == 0 {
        0
    } else {
        running_total(game, (n - 1) as nat) + frame_points(game, n - 1)
    }
}

/// The cumulative totals of a game, one for each frame that takes part in scoring.
pub open spec fn totals_spec(game: GameView) -> Seq<nat> {
    Seq::new(game.played(), |i: int| running_total(game, (i + 1) as nat))
}

/// The current score of a game: the total after its last played frame.
pub open spec fn score_spec(game: GameView) -> nat {
    running_total(game, game.played())
}

/// The score of the perfect game of `frame_count` frames: thirty points a frame.
pub open spec fn perfect_score(frame_count: nat) -> nat {
    30 * frame_count
}

/// The shot that fills an open slot after `previous`: a strike after a strike, and
/// otherwise the spare that clears what `previous` left standing.
pub open spec fn best_follow_up(previous: Score) -> Score {
    if previous.is_strike_spec() {
        Score::STRIKE
    } else {
        Score::SPARE
    }
}

/// Whether a frame awards a bonus shot: only a strike or a spare does.
pub open spec fn allows_bonus(frame: Frame) -> bool {
    frame.is_strike_spec() || frame.is_spare_spec()
}

/// The best that the final frame of a game can still become. Shots already taken
/// stay. An empty first shot becomes a strike, and an empty second shot and an empty
/// bonus shot each become the best shot after the one before. A frame without a
/// bonus shot gains one, the best after its second shot, only where its two shots,
/// filled in, make a strike or a spare: an open frame awards none.
pub open spec fn best_final_frame(frame: Frame) -> Frame {
    let first = if frame.first.is_empty_spec() {
        Score::STRIKE
    } else {
        frame.first
    };
    let second = if frame.second.is_empty_spec() {
        best_follow_up(first)
    } else {
        frame.second
    };
    let bonus = match frame.bonus {
        Some(bonus) => if bonus.is_empty_spec() {
            Some(best_follow_up(second))
        } else {
            Some(bonus)
        },
        None => if allows_bonus(Frame { first, second, bonus: None }) {
            Some(best_follow_up(second))
        } else {
            None
        },
    };
    Frame { first, second, bonus }
}

/// The best that a frame before the final one can still become: a strike is a plain
/// strike, a frame whose second shot is open becomes a spare on its first shot's
/// pins, and a frame with both shots taken stays as it is.
pub open spec fn best_inner_frame(frame: Frame) -> Frame {
    if frame.first.is_strike_spec() {
        Frame::strike_spec()
    } else if frame.second.is_empty_spec() {
        Frame::spare_spec(frame.first.value_spec() as usize)
    } else {
        frame
    }
}

/// The frame at `index` of the best completion of `game`: an unplayed frame becomes a
/// strike, or three strikes in the final frame.
pub open spec fn best_frame(game: GameView, index: int) -> Frame {
    match game.frame(index) {
        Some(frame) => if index + 1 == game.frame_count {
            best_final_frame(frame)
        } else {
            best_inner_frame(frame)
        },
        None => if index + 1 == game.frame_count {
            Frame::triple_strike_spec()
        } else {
            Frame::strike_spec()
        },
    }
}

/// The best game that `game` can still become: as many frames as the game allows,
/// each the best that the frame played there, or not yet played, can become.
pub open spec fn best_completion_spec(game: GameView) -> GameView {
    GameView {
        frame_count: game.frame_count,
        frames: Seq::new(game.frame_count, |i: int| best_frame(game, i)),
    }
}

/// The maximum score that `game` can still reach: the score of its best completion.
pub open spec fn max_spec(game: GameView) -> nat {
    score_spec(best_completion_spec(game))
}

/// A frame adds at most 50 points: up to 30 of its own and up to 20 in bonus.
pub proof fn lemma_frame_points_bound(game: GameView, index: int)
    requires
        game.frame(index) is Some,
    ensures
        frame_points(game, index) <= 50,
{
}

/// The running total never decreases, and grows by at most 50 points a frame.
pub proof fn lemma_running_total_monotonic(game: GameView, m: nat, n: nat)
    requires
        m <= n <= game.frames.len(),
    ensures
        running_total(game, m) <= running_total(game, n) <= running_total(game, m) + 50 * (n - m),
    decreases n,
{
    if m < n {
        lemma_running_total_monotonic(game, m, (n - 1) as nat);
        lemma_frame_points_bound(game, n - 1);
    }
}

/// A score is at most 50 points for each frame that takes part in scoring.
pub proof fn lemma_score_bound(game: GameView)
    ensures
        score_spec(game) <= 50 * game.played(),
{
    lemma_running_total_monotonic(game, 0, game.played());
}

/// The maximum score is at most 50 points for each frame that the game allows.
pub proof fn lemma_max_bound(game: GameView)
    ensures
        max_spec(game) <= 50 * game.frame_count,
{
    lemma_score_bound(best_completion_spec(game));
}

/// Where the score fits in a `usize`, so does every cumulative total before it.
pub proof fn lemma_totals_fit(game: GameView)
    requires
        score_spec(game) <= usize::MAX,
    ensures
        forall|i: int| 0 <= i < totals_spec(game).len() ==> totals_spec(game)[i] <= usize::MAX,
{
    assert forall|i: int| 0 <= i < totals_spec(game).len() implies totals_spec(game)[i]
        <= usize::MAX by {
        lemma_running_total_monotonic(game, (i + 1) as nat, game.played());
    }
}

} // verus!
