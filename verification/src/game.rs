use std::slice::{Iter, IterMut};
use std::vec::IntoIter;
use vstd::prelude::*;
use vstd::std_specs::iter::IteratorSpec;

use crate::frame::Frame;
use crate::rules::{
    lemma_score_bound, lemma_totals_fit, max_spec, perfect_score, score_spec, totals_spec,
};
use crate::score_provider::{all_fit, final_total, same_totals, ScoreProvider, TenPinScoreProvider};

verus! {

/// The mathematical content of a [`Game`]: the number of frames the game is meant
/// to have, and the frames played so far, in order.
pub struct GameView {
    /// The total number of frames allowed for the game.
    pub frame_count: nat,
    /// The frames played so far.
    pub frames: Seq<Frame>,
}

impl GameView {
    /// The frame at `index`, where one has been played.
    pub open spec fn frame(self, index: int) -> Option<Frame> {
        if 0 <= index < self.frames.len() {
            Some(self.frames[index])
        } else {
            None
        }
    }

    /// The number of frames that take part in scoring: those played, up to the
    /// number of frames the game allows.
    pub open spec fn played(self) -> nat {
        if self.frames.len() <= self.frame_count {
            self.frames.len()
        } else {
            self.frame_count
        }
    }
}

/// `std::slice::IterMut`, the mutable iterator over a slice. Nothing is known of it
/// but its type.
#[verifier::external_type_specification]
#[verifier::external_body]
#[verifier::reject_recursive_types(T)]
pub struct ExIterMut<'a, T: 'a>(IterMut<'a, T>);

/// Contains the data for a bowling game.
#[derive(Debug, Hash)]
pub struct Game {
    /// The total number of frames allowed for the game.
    pub frame_count: usize,
    /// The frames played so far, in order.
    pub frames: Vec<Frame>,
}

impl View for Game {
    type V = GameView;

    open spec fn view(&self) -> GameView {
        GameView { frame_count: self.frame_count as nat, frames: self.frames@ }
    }
}

impl Clone for Game {
    /// A copy of the game: the same frame count and the same frames.
    fn clone(&self) -> (game: Game)
        ensures
            game@ == self@,
    {
        let game = Game { frame_count: self.frame_count, frames: self.frames.clone() };
        assert(game@.frames =~= self@.frames);
        game
    }
}

impl Default for Game {
    /// The game that allows no frames and has none.
    fn default() -> (game: Game)
        ensures
            game@.frame_count == 0,
            game@.frames == Seq::<Frame>::empty(),
    {
        Game { frame_count: 0, frames: Vec::new() }
    }
}

impl Game {
    /// Create a new game of ten frames.
    pub fn new(frames: Vec<Frame>) -> (game: Game)
        ensures
            game@.frame_count == 10,
            game@.frames == frames@,
    {
        Game { frame_count: 10, frames }
    }

    /// Create a new game with a custom frame count.
    pub fn with_frame_count(frame_count: usize, frames: Vec<Frame>) -> (game: Game)
        ensures
            game@.frame_count == frame_count,
            game@.frames == frames@,
    {
        Game { frame_count, frames }
    }

    /// Returns an iterator over the frames of the game, in order.
    pub fn iter(&self) -> (iter: Iter<'_, Frame>)
        ensures
            vstd::std_specs::slice::into_iter_elts(iter) == self@.frames,
            iter.remaining() == self@.frames.as_ref(),
            iter.decrease() is Some,
            iter.initial_value_relation(&iter),
    {
        self.frames.iter()
    }

    /// Returns an iterator that allows changing each frame of the game.
    ///
    /// Not verified: the body calls `iter_mut` of the standard library on the frames.
    /// The contract claims of it only that, whatever is done with the iterator, the
    /// game keeps its frame count and its number of frames: the iterator hands out
    /// the frames one by one and can neither add nor remove one.
    #[verifier::external_body]
    pub fn iter_mut(&mut self) -> (iter: IterMut<'_, Frame>)
        ensures
            final(self)@.frame_count == old(self)@.frame_count,
            final(self)@.frames.len() == old(self)@.frames.len(),
    {
        self.frames.iter_mut()
    }

    /// Creates a consuming iterator over the frames of the game, in order.
    pub fn into_iter(self) -> (iter: IntoIter<Frame>)
        ensures
            vstd::std_specs::vec::into_iter_elts(iter) == self@.frames,
            iter.remaining() == self@.frames,
            iter.decrease() is Some,
            iter.initial_value_relation(&iter),
    {
        self.frames.into_iter()
    }

    /// Add a frame to the end of the game.
    pub fn add_frame(&mut self, frame: Frame)
        ensures
            final(self)@.frame_count == old(self)@.frame_count,
            final(self)@.frames == old(self)@.frames.push(frame),
    {
        self.frames.push(frame);
    }

    /// Remove the frame at `index` from the game and return it; the later frames
    /// move one place forward.
    pub fn remove_frame(&mut self, index: usize) -> (frame: Frame)
        requires
            index < old(self)@.frames.len(),
        ensures
            frame == old(self)@.frames[index as int],
            final(self)@.frame_count == old(self)@.frame_count,
            final(self)@.frames == old(self)@.frames.remove(index as int),
    {
        self.frames.remove(index)
    }

    /// Get the frame at `index`, if one has been played.
    pub fn frame(&self, index: usize) -> (frame: Option<&Frame>)
        ensures
            frame == match self@.frame(index as int) {
                Some(f) => Some(&f),
                None => None,
            },
    {
        if index < self.frames.len() {
            Some(&self.frames[index])
        } else {
            None
        }
    }

    /// Replace the frame at `index`.
    pub fn set_frame(&mut self, index: usize, frame: Frame)
        requires
            index < old(self)@.frames.len(),
        ensures
            final(self)@.frame_count == old(self)@.frame_count,
            final(self)@.frames == old(self)@.frames.update(index as int, frame),
    {
        self.frames[index] = frame;
    }

    /// Check if the game is small enough to be scored whatever its frames hold: a
    /// frame adds at most 50 points, and 50 points for each frame that takes part in
    /// scoring must fit in a `usize`. Where this holds, the score fits too.
    pub fn can_score(&self) -> (ok: bool)
        ensures
            ok == (50 * self@.played() <= usize::MAX),
            ok ==> score_spec(self@) <= usize::MAX,
    {
        proof {
            lemma_score_bound(self@);
        }
        let played = if self.frames.len() <= self.frame_count {
            self.frames.len()
        } else {
            self.frame_count
        };
        played <= usize::MAX / 50
    }

    /// Check if the game is perfect: its score is that of the perfect game with as
    /// many frames as this game allows, 300 for ten frames.
    pub fn is_perfect(&self) -> (perfect: bool)
        requires
            score_spec(self@) <= usize::MAX,
        ensures
            perfect == (score_spec(self@) == perfect_score(self@.frame_count)),
    {
        self.frame_count <= usize::MAX / 30 && self.score() == 30 * self.frame_count
    }

    /// Calculate the score after each frame of the game using a [`ScoreProvider`].
    pub fn computed_with_provider<P: ScoreProvider>(&self, provider: P) -> (computed: Vec<usize>)
        requires
            all_fit(provider.totals(self@)),
        ensures
            call_ensures(P::computed, (&provider, self), computed),
            P::obeys_rules() ==> same_totals(computed@, provider.totals(self@)),
    {
        provider.computed(self)
    }

    /// Calculate the score after each frame of the game by the ten-pin rules.
    pub fn computed(&self) -> (computed: Vec<usize>)
        requires
            score_spec(self@) <= usize::MAX,
        ensures
            same_totals(computed@, totals_spec(self@)),
    {
        proof {
            lemma_totals_fit(self@);
        }
        self.computed_with_provider(TenPinScoreProvider)
    }

    /// Calculate the current score of the game using a [`ScoreProvider`].
    pub fn score_with_provider<P: ScoreProvider>(&self, provider: P) -> (total: usize)
        requires
            all_fit(provider.totals(self@)),
        ensures
            call_ensures(P::score, (&provider, self), total),
            P::obeys_rules() ==> total == final_total(provider.totals(self@)),
    {
        provider.score(self)
    }

    /// Calculate the current score of the game by the ten-pin rules.
    pub fn score(&self) -> (total: usize)
        requires
            score_spec(self@) <= usize::MAX,
        ensures
            total == score_spec(self@),
    {
        proof {
            lemma_totals_fit(self@);
        }
        self.score_with_provider(TenPinScoreProvider)
    }

    /// Calculate the maximum score achievable for the game using a [`ScoreProvider`].
    pub fn max_with_provider<P: ScoreProvider>(&self, provider: P) -> (best: usize)
        requires
            all_fit(provider.totals(provider.best_completion(self@))),
        ensures
            call_ensures(P::max, (&provider, self), best),
            P::obeys_rules() ==> best == final_total(
                provider.totals(provider.best_completion(self@)),
            ),
    {
        provider.max(self)
    }

    /// Calculate the maximum score achievable for the game by the ten-pin rules.
    pub fn max(&self) -> (best: usize)
        requires
            max_spec(self@) <= usize::MAX,
        ensures
            best == max_spec(self@),
    {
        proof {
            lemma_totals_fit(crate::rules::best_completion_spec(self@));
        }
        self.max_with_provider(TenPinScoreProvider)
    }
}

} // verus!
