use vstd::prelude::*;

use crate::frame::Frame;
use crate::game::{Game, GameView};
use crate::score::Score;

verus! {

/// The shot at `index` of a list of pin counts: that many pins, or an empty shot
/// where the list ends before `index`.
pub open spec fn shot_at(pins: Seq<usize>, index: int) -> Score {
    if 0 <= index < pins.len() {
        Score::PINS(pins[index])
    } else {
        Score::EMPTY
    }
}

/// The frame that a group of up to three pin counts stands for: first shot, second
/// shot and bonus shot. A count that is missing leaves its shot empty, and the frame
/// has a bonus shot only where the group has a third count.
pub open spec fn group_frame(group: Seq<usize>) -> Frame {
    Frame {
        first: shot_at(group, 0),
        second: shot_at(group, 1),
        bonus: if group.len() > 2 {
            Some(Score::PINS(group[2]))
        } else {
            None
        },
    }
}

/// The game that a list of groups stands for: one frame for each group, and as many
/// frames allowed as there are groups.
pub open spec fn grouped_game(groups: Seq<Seq<usize>>) -> GameView {
    GameView {
        frame_count: groups.len(),
        frames: Seq::new(groups.len(), |i: int| group_frame(groups[i])),
    }
}

/// The views of the groups, in order.
pub open spec fn group_views(frames: Seq<Vec<usize>>) -> Seq<Seq<usize>> {
    Seq::new(frames.len(), |i: int| frames[i]@)
}

/// Read the frame that a group of pin counts stands for.
fn parse_frame(group: &Vec<usize>) -> (frame: Frame)
    ensures
        frame == group_frame(group@),
{
    let first = if group.len() > 0 {
        Score::PINS(group[0])
    } else {
        Score::EMPTY
    };
    let second = if group.len() > 1 {
        Score::PINS(group[1])
    } else {
        Score::EMPTY
    };
    let bonus = if group.len() > 2 {
        Some(Score::PINS(group[2]))
    } else {
        None
    };
    Frame { first, second, bonus }
}

/// Parse a list of frames, each a group of one to three pin counts, into a [`Game`].
pub fn parse_score(frames: Vec<Vec<usize>>) -> (game: Game)
    ensures
        game@ == grouped_game(group_views(frames@)),
{
    let mut parsed_frames: Vec<Frame> = Vec::new();

    for i in 0..frames.len()
        invariant
            parsed_frames@.len() == i,
            forall|j: int| 0 <= j < i ==> parsed_frames@[j] == group_frame(frames@[j]@),
    {
        parsed_frames.push(parse_frame(&frames[i]));
    }

    let game = Game::with_frame_count(frames.len(), parsed_frames);
    assert(game@.frames =~= grouped_game(group_views(frames@)).frames);
    game
}

/// The pin count at `index` of a list of shots, or 0 where the list ends before it.
pub open spec fn pins_at(shots: Seq<usize>, index: int) -> usize {
    if 0 <= index < shots.len() {
        shots[index]
    } else {
        0
    }
}

/// The closing frame that takes up the shots from `start` to the end of the list,
/// three at most: the first as a strike marker where it is ten or more and as its pin
/// count otherwise, the second as a pin count, 0 where there is none, and the third
/// as the bonus shot where there is one.
pub open spec fn closing_frame(shots: Seq<usize>, start: int) -> Frame
    recommends
        0 <= start < shots.len(),
{
    Frame {
        first: if shots[start] >= 10 {
            Score::STRIKE
        } else {
            Score::PINS(shots[start])
        },
        second: Score::PINS(pins_at(shots, start + 1)),
        bonus: if start + 2 < shots.len() {
            Some(Score::PINS(shots[start + 2]))
        } else {
            None
        },
    }
}

/// The frames that the shots from `start` on stand for. A shot of ten or more is a
/// strike frame of its own; any other shot makes a frame with the shot after it, or
/// with 0 where it is the last. With `bonus`, the last three shots of the list
/// belong to the closing frame: the frame that starts among them takes all that is
/// left.
pub open spec fn raw_frames(shots: Seq<usize>, bonus: bool, start: int) -> Seq<Frame>
    decreases shots.len() + 1 - start,
{
    if start < 0 || start >= shots.len() {
        Seq::empty()
    } else if bonus && start + 3 >= shots.len() {
        seq![closing_frame(shots, start)]
    } else if shots[start] >= 10 {
        seq![Frame::strike_spec()] + raw_frames(shots, bonus, start + 1)
    } else {
        seq![
            Frame {
                first: Score::PINS(shots[start]),
                second: Score::PINS(pins_at(shots, start + 1)),
                bonus: None,
            },
        ] + raw_frames(shots, bonus, start + 2)
    }
}

/// The game that a flat list of shots stands for: its frames, and as many frames
/// allowed as the shots make.
pub open spec fn raw_game(shots: Seq<usize>, bonus: bool) -> GameView {
    GameView {
        frame_count: raw_frames(shots, bonus, 0).len(),
        frames: raw_frames(shots, bonus, 0),
    }
}

/// Parse a flat list of shots into a [`Game`]. A shot of ten or more is a strike
/// frame of its own, and any other shot makes a frame with the shot after it. With
/// `bonus`, the frame that starts among the last three shots takes all that is left:
/// two shots and the bonus shot.
pub fn parse_raw_score(shots: Vec<usize>, bonus: bool) -> (game: Game)
    ensures
        game@ == raw_game(shots@, bonus),
{
    let mut parsed_frames: Vec<Frame> = Vec::new();
    let n = shots.len();
    let mut i: usize = 0;

    while i < n
        invariant
            n == shots@.len(),
            i <= n,
            parsed_frames@ + raw_frames(shots@, bonus, i as int) == raw_frames(shots@, bonus, 0),
        decreases n - i,
    {
        let final_frame = n - i <= 3;
        let shot = shots[i];
        let second = if i + 1 < n {
            shots[i + 1]
        } else {
            0
        };
        let ghost before = parsed_frames@;

        if final_frame && bonus {
            let first = if shot >= 10 {
                Score::STRIKE
            } else {
                Score::PINS(shot)
            };
            let third = if n - i > 2 {
                Some(Score::PINS(shots[i + 2]))
            } else {
                None
            };
            parsed_frames.push(Frame { first, second: Score::PINS(second), bonus: third });
            assert(parsed_frames@ + raw_frames(shots@, bonus, n as int) =~= before + raw_frames(
                shots@,
                bonus,
                i as int,
            ));
            i = n;
        } else if shot >= 10 {
            parsed_frames.push(Frame::strike());
            assert(parsed_frames@ + raw_frames(shots@, bonus, i + 1) =~= before + raw_frames(
                shots@,
                bonus,
                i as int,
            ));
            i = i + 1;
        } else {
            parsed_frames.push(Frame::new(Score::PINS(shot), Score::PINS(second)));
            assert(parsed_frames@ + raw_frames(shots@, bonus, i + 2) =~= before + raw_frames(
                shots@,
                bonus,
                i as int,
            ));
            i = if i + 1 < n {
                i + 2
            } else {
                n
            };
        }
    }

    assert(parsed_frames@ =~= raw_frames(shots@, bonus, 0));
    Game::with_frame_count(parsed_frames.len(), parsed_frames)
}

} // verus!
