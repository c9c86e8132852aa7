use bowling_rs::{Frame, Game, Score};

#[test]
fn new_game_allows_ten_frames() {
    let game = Game::new(vec![Frame::strike()]);
    assert_eq!(game.frame_count, 10);
    assert_eq!(game.frames, vec![Frame::strike()]);
}

#[test]
fn with_frame_count_keeps_count_and_frames() {
    let game = Game::with_frame_count(3, vec![Frame::spare(4), Frame::strike()]);
    assert_eq!(game.frame_count, 3);
    assert_eq!(game.frames, vec![Frame::spare(4), Frame::strike()]);
}

#[test]
fn default_game_has_no_frames() {
    let game = Game::default();
    assert_eq!(game.frame_count, 0);
    assert!(game.frames.is_empty());
    assert_eq!(game.score(), 0);
    assert_eq!(game.max(), 0);
}

#[test]
fn clone_copies_the_game() {
    let game = Game::with_frame_count(4, vec![Frame::spare(4), Frame::strike()]);
    let copy = game.clone();
    assert_eq!(copy.frame_count, 4);
    assert_eq!(copy.frames, game.frames);
}

#[test]
fn frame_returns_none_out_of_range() {
    let game = Game::new(vec![Frame::spare(4), Frame::strike()]);
    assert_eq!(game.frame(0), Some(&Frame::spare(4)));
    assert_eq!(game.frame(1), Some(&Frame::strike()));
    assert_eq!(game.frame(2), None);
    assert_eq!(game.frame(usize::MAX), None);
    assert_eq!(Game::new(vec![]).frame(0), None);
}

#[test]
fn add_frame_appends() {
    let mut game = Game::new(vec![Frame::spare(4)]);
    game.add_frame(Frame::strike());
    game.add_frame(Frame::new(Score::PINS(1), Score::PINS(2)));
    assert_eq!(game.frame_count, 10);
    assert_eq!(
        game.frames,
        vec![Frame::spare(4), Frame::strike(), Frame::new(Score::PINS(1), Score::PINS(2))]
    );
}

#[test]
fn remove_frame_returns_it_and_closes_the_gap() {
    let mut game = Game::new(vec![Frame::spare(4), Frame::strike(), Frame::spare(1)]);
    let removed = game.remove_frame(1);
    assert_eq!(removed, Frame::strike());
    assert_eq!(game.frames, vec![Frame::spare(4), Frame::spare(1)]);
    assert_eq!(game.frame_count, 10);
}

#[test]
fn set_frame_replaces_one_frame() {
    let mut game = Game::new(vec![Frame::spare(4), Frame::strike(), Frame::spare(1)]);
    game.set_frame(2, Frame::triple_strike());
    assert_eq!(game.frames, vec![Frame::spare(4), Frame::strike(), Frame::triple_strike()]);
    assert_eq!(game.frame_count, 10);
}

#[test]
fn iter_walks_the_frames_in_order() {
    let game = Game::new(vec![Frame::spare(4), Frame::strike()]);
    let seen: Vec<Frame> = game.iter().copied().collect();
    assert_eq!(seen, vec![Frame::spare(4), Frame::strike()]);
    // The iterator can be started again.
    assert_eq!(game.iter().count(), 2);
}

#[test]
fn iter_mut_changes_frames_in_place() {
    let mut game = Game::new(vec![Frame::spare(4), Frame::strike()]);
    for frame in game.iter_mut() {
        frame.bonus = Some(Score::PINS(1));
    }
    assert_eq!(
        game.frames,
        vec![
            Frame::with_bonus(Score::PINS(4), Score::SPARE, Score::PINS(1)),
            Frame::with_bonus(Score::STRIKE, Score::EMPTY, Score::PINS(1)),
        ]
    );
    assert_eq!(game.frame_count, 10);
}

#[test]
fn into_iter_hands_out_the_frames_in_order() {
    let game = Game::new(vec![Frame::spare(4), Frame::strike()]);
    let seen: Vec<Frame> = game.into_iter().collect();
    assert_eq!(seen, vec![Frame::spare(4), Frame::strike()]);
}
