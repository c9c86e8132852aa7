//! What holds of every game under the ten-pin rules.

use vstd::prelude::*;

use crate::frame::Frame;
use crate::game::GameView;
use crate::parse::{group_frame, grouped_game};
use crate::score::Score;
use crate::rules::{
    allows_bonus, best_completion_spec, best_frame, bonus_spec, frame_points, max_spec,
    perfect_score, running_total, score_spec, totals_spec,
};

verus! {

/// The game of `frame_count` frames in which every shot is a strike: plain strikes,
/// and three strikes in the final frame.
pub open spec fn perfect_game(frame_count: nat) -> GameView {
    GameView {
        frame_count,
        frames: Seq::new(
            frame_count,
            |i: int|
                if i + 1 == frame_count {
                    Frame::triple_strike_spec()
                } else {
                    Frame::strike_spec()
                },
        ),
    }
}

/// The game of `frame_count` frames in which nothing has been played.
pub open spec fn unplayed_game(frame_count: nat) -> GameView {
    GameView { frame_count, frames: Seq::empty() }
}

/// Every frame of the perfect game adds thirty points.
proof fn lemma_perfect_running_total(frame_count: nat, n: nat)
    requires
        n <= frame_count,
    ensures
        running_total(perfect_game(frame_count), n) == 30 * n,
    decreases n,
{
    if n > 0 {
        lemma_perfect_running_total(frame_count, (n - 1) as nat);
        assert(frame_points(perfect_game(frame_count), n - 1) == 30);
    }
}

/// A game in which every frame is a strike, with three strikes in the final frame,
/// scores thirty points a frame, 300 for ten frames, and that is also the most it
/// can reach.
pub proof fn lemma_perfect_game(frame_count: nat)
    ensures
        score_spec(perfect_game(frame_count)) == perfect_score(frame_count),
        max_spec(perfect_game(frame_count)) == perfect_score(frame_count),
        frame_count == 10 ==> score_spec(perfect_game(frame_count)) == 300,
{
    lemma_perfect_running_total(frame_count, frame_count);
    assert(best_completion_spec(perfect_game(frame_count)).frames =~= perfect_game(
        frame_count,
    ).frames);
}

/// A game in which nothing has been played scores 0 and can still reach the perfect
/// score: 300 for ten frames.
pub proof fn lemma_unplayed_game(frame_count: nat)
    ensures
        score_spec(unplayed_game(frame_count)) == 0,
        max_spec(unplayed_game(frame_count)) == perfect_score(frame_count),
        best_completion_spec(unplayed_game(frame_count)) == perfect_game(frame_count),
{
    assert(best_completion_spec(unplayed_game(frame_count)).frames =~= perfect_game(
        frame_count,
    ).frames);
    lemma_perfect_game(frame_count);
}

/// A frame before the final one in which no shot is open: the first shot is taken,
/// and the second is taken unless the first is a strike. A strike must also be worth
/// ten, as a plain strike is: one that counts a bonus shot of its own is worth more
/// than the strike that the best completion puts in its place.
pub open spec fn inner_frame_resolved(frame: Frame) -> bool {
    &&& !frame.first.is_empty_spec()
    &&& if frame.first.is_strike_spec() {
        frame.value_spec() == 10
    } else {
        !frame.second.is_empty_spec()
    }
}

/// A final frame in which no shot is open: both shots are taken, a bonus shot that
/// the frame holds is taken, and the frame holds one where it is a strike or a spare,
/// which award it.
pub open spec fn final_frame_resolved(frame: Frame) -> bool {
    &&& !frame.first.is_empty_spec()
    &&& !frame.second.is_empty_spec()
    &&& match frame.bonus {
        Some(bonus) => !bonus.is_empty_spec(),
        None => !allows_bonus(frame),
    }
}

/// Every frame that the game allows has been played and has no open shot.
pub open spec fn fully_resolved(game: GameView) -> bool {
    &&& game.frame_count <= game.frames.len()
    &&& forall|i: int|
        0 <= i < game.frame_count - 1 ==> inner_frame_resolved(#[trigger] game.frames[i])
    &&& game.frame_count > 0 ==> final_frame_resolved(game.frames[game.frame_count - 1])
}

/// In a fully resolved game every frame adds to the best completion what it adds to
/// the game itself.
proof fn lemma_resolved_frame_points(game: GameView, index: int)
    requires
        fully_resolved(game),
        0 <= index < game.frame_count,
    ensures
        frame_points(best_completion_spec(game), index) == frame_points(game, index),
{
    let best = best_completion_spec(game);
    assert(best.frames[index] == best_frame(game, index));
    if index + 1 < game.frame_count {
        assert(best.frames[index + 1] == best_frame(game, index + 1));
        assert(inner_frame_resolved(game.frames[index]));
        if index + 2 < game.frame_count {
            assert(best.frames[index + 2] == best_frame(game, index + 2));
            assert(inner_frame_resolved(game.frames[index + 1]));
            if index + 3 < game.frame_count {
                assert(inner_frame_resolved(game.frames[index + 2]));
            }
        }
    }
}

/// The running totals of a fully resolved game are those of its best completion.
proof fn lemma_resolved_running_total(game: GameView, n: nat)
    requires
        fully_resolved(game),
        n <= game.frame_count,
    ensures
        running_total(best_completion_spec(game), n) == running_total(game, n),
    decreases n,
{
    if n > 0 {
        lemma_resolved_running_total(game, (n - 1) as nat);
        lemma_resolved_frame_points(game, n - 1);
    }
}

/// Once every frame that the game allows has been played and has no open shot, the
/// score is the maximum score: nothing is left to improve.
pub proof fn lemma_resolved_score_is_max(game: GameView)
    requires
        fully_resolved(game),
    ensures
        score_spec(game) == max_spec(game),
{
    lemma_resolved_running_total(game, game.frame_count);
}

/// A spare earns the first shot of the next frame: the total after a spare frame is
/// the total before it, ten for the frame, and what that shot is worth.
pub proof fn lemma_spare_bonus(game: GameView, index: int)
    requires
        0 <= index,
        index + 1 < game.frame_count,
        index + 1 < game.frames.len(),
        game.frames[index].is_spare_spec(),
    ensures
        bonus_spec(game, index) == game.frames[index + 1].first.value_spec(),
        totals_spec(game)[index] == running_total(game, index as nat) + game.frames[index].value_spec()
            + game.frames[index + 1].first.value_spec(),
{
}

/// A strike followed by an open frame earns both shots of that frame.
pub proof fn lemma_strike_then_open_bonus(game: GameView, index: int)
    requires
        0 <= index,
        index + 1 < game.frame_count,
        index + 1 < game.frames.len(),
        game.frames[index].is_strike_spec(),
        game.frames[index + 1].first.value_spec() + game.frames[index + 1].second.value_spec() < 10,
    ensures
        bonus_spec(game, index) == game.frames[index + 1].first.value_spec() + game.frames[index
            + 1].second.value_spec(),
        totals_spec(game)[index] == running_total(game, index as nat) + game.frames[index].value_spec()
            + game.frames[index + 1].first.value_spec() + game.frames[index + 1].second.value_spec(),
{
}

/// A strike followed by another strike and then a third frame earns ten for the
/// second strike and the first shot of the third frame.
pub proof fn lemma_double_strike_bonus(game: GameView, index: int)
    requires
        0 <= index,
        index + 2 < game.frame_count,
        index + 2 < game.frames.len(),
        game.frames[index].is_strike_spec(),
        game.frames[index + 1].is_strike_spec(),
    ensures
        bonus_spec(game, index) == 10 + game.frames[index + 2].first.value_spec(),
        totals_spec(game)[index] == running_total(game, index as nat) + game.frames[index].value_spec()
            + 10 + game.frames[index + 2].first.value_spec(),
{
}

/// Two frames that scoring cannot tell apart: they are worth the same, their first
/// shots are worth the same, both or neither is a strike, both or neither is a spare,
/// and unless they are spares their second shots are worth the same.
pub open spec fn alike(a: Frame, b: Frame) -> bool {
    &&& a.value_spec() == b.value_spec()
    &&& a.first.value_spec() == b.first.value_spec()
    &&& a.is_strike_spec() == b.is_strike_spec()
    &&& a.is_spare_spec() == b.is_spare_spec()
    &&& (a.is_spare_spec() || a.second.value_spec() == b.second.value_spec())
}

/// Two games of the same length whose frames are alike, one for one.
pub open spec fn games_alike(a: GameView, b: GameView) -> bool {
    &&& a.frame_count == b.frame_count
    &&& a.frames.len() == b.frames.len()
    &&& forall|i: int| 0 <= i < a.frames.len() ==> alike(#[trigger] a.frames[i], b.frames[i])
}

/// Games that are alike have the same running totals.
proof fn lemma_alike_running_total(a: GameView, b: GameView, n: nat)
    requires
        games_alike(a, b),
        n <= a.frames.len(),
    ensures
        running_total(a, n) == running_total(b, n),
    decreases n,
{
    if n > 0 {
        lemma_alike_running_total(a, b, (n - 1) as nat);
        let i = n - 1;
        assert(alike(a.frames[i], b.frames[i]));
        if i + 1 < a.frames.len() {
            assert(alike(a.frames[i + 1], b.frames[i + 1]));
        }
        if i + 2 < a.frames.len() {
            assert(alike(a.frames[i + 2], b.frames[i + 2]));
        }
        assert(frame_points(a, i) == frame_points(b, i));
    }
}

/// A score does not depend on how a shot is written down: games whose frames are
/// alike, one for one, have the same totals. So a spare may be written by its marker
/// or by its pins, and a strike by its marker or as ten pins.
pub proof fn lemma_alike_games_score_alike(a: GameView, b: GameView)
    requires
        games_alike(a, b),
    ensures
        totals_spec(a) == totals_spec(b),
        score_spec(a) == score_spec(b),
{
    lemma_alike_running_total(a, b, a.played());
    assert forall|i: int| 0 <= i < a.played() implies #[trigger] totals_spec(a)[i] == totals_spec(
        b,
    )[i] by {
        lemma_alike_running_total(a, b, (i + 1) as nat);
    }
    assert(totals_spec(a) =~= totals_spec(b));
}

/// The marker forms of a frame are like its pin forms: a spare on fewer than ten
/// pins like the two pin counts that add up to ten, a strike like ten pins, and
/// three strikes like three times ten pins.
pub proof fn lemma_markers_alike_pins(pins: usize)
    ensures
        pins < 10 ==> alike(
            Frame::spare_spec(pins),
            Frame {
                first: Score::PINS(pins),
                second: Score::PINS((10 - pins) as usize),
                bonus: None,
            },
        ),
        alike(
            Frame::strike_spec(),
            Frame { first: Score::PINS(10), second: Score::EMPTY, bonus: None },
        ),
        alike(
            Frame::triple_strike_spec(),
            Frame {
                first: Score::PINS(10),
                second: Score::PINS(10),
                bonus: Some(Score::PINS(10)),
            },
        ),
{
}

/// A game parsed from groups of pin counts scores as the game built by hand from the
/// frames that the groups stand for.
pub proof fn lemma_parsed_scores_as_built(groups: Seq<Seq<usize>>, frames: Seq<Frame>)
    requires
        frames.len() == groups.len(),
        forall|i: int| 0 <= i < groups.len() ==> frames[i] == group_frame(#[trigger] groups[i]),
    ensures
        score_spec(grouped_game(groups)) == score_spec(GameView { frame_count: frames.len(), frames }),
        totals_spec(grouped_game(groups)) == totals_spec(GameView { frame_count: frames.len(), frames }),
{
    assert(grouped_game(groups).frames =~= frames);
}

} // verus!
