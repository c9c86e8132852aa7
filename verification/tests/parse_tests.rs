use bowling_rs::{parse_raw_score, parse_score, Frame, Game, Score};

#[test]
fn parse_game_300() {
    let mut frames = vec![vec![10]; 9];
    frames.push(vec![10, 10, 10]);
    let game = parse_score(frames);

    assert_eq!(game.score(), 300);
}

#[test]
fn parse_game_245() {
    let game = parse_score(vec![
        vec![7, 1],
        vec![9, 1],
        vec![10],
        vec![8, 2],
        vec![10],
        vec![10],
        vec![10],
        vec![10],
        vec![10],
        vec![10, 10, 7],
    ]);
    assert_eq!(game.score(), 245);
}

#[test]
fn parse_game_223() {
    let game = parse_score(vec![
        vec![9, 1],
        vec![8, 2],
        vec![10],
        vec![10],
        vec![10],
        vec![10],
        vec![8, 2],
        vec![10],
        vec![10],
        vec![9],
    ]);
    assert_eq!(game.score(), 223);
}

#[test]
fn parse_raw_game_300() {
    let game = parse_raw_score(vec![10; 12], true);
    assert_eq!(game.score(), 300);
}

#[test]
fn parse_raw_game_245() {
    let game = parse_raw_score(vec![7, 1, 9, 1, 10, 8, 2, 10, 10, 10, 10, 10, 10, 10, 7], true);
    assert_eq!(game.score(), 245);
}

#[test]
fn parse_raw_game_223() {
    let game = parse_raw_score(vec![9, 1, 8, 2, 10, 10, 10, 10, 8, 2, 10, 10, 9], false);
    assert_eq!(game.score(), 223);
}

#[test]
fn macros_triple_strike() {
    let game = parse_raw_score(vec![10, 10, 10], true);
    assert_eq!(game.score(), 30);
}

#[test]
fn parse_score_reads_each_group_as_a_frame() {
    let game = parse_score(vec![vec![], vec![9], vec![9, 1], vec![10, 10, 7], vec![1, 2, 3, 4]]);
    assert_eq!(game.frame_count, 5);
    assert_eq!(
        game.frames,
        vec![
            Frame::empty(),
            Frame::new(Score::PINS(9), Score::EMPTY),
            Frame::new(Score::PINS(9), Score::PINS(1)),
            Frame::with_bonus(Score::PINS(10), Score::PINS(10), Score::PINS(7)),
            Frame::with_bonus(Score::PINS(1), Score::PINS(2), Score::PINS(3)),
        ]
    );
}

#[test]
fn parse_score_of_no_groups_is_the_game_without_frames() {
    let game = parse_score(vec![]);
    assert_eq!(game.frame_count, 0);
    assert!(game.frames.is_empty());
    assert_eq!(game.score(), 0);
}

#[test]
fn parsed_game_scores_as_the_game_built_by_hand() {
    let groups = vec![vec![7, 1], vec![9, 1], vec![10], vec![8, 2], vec![10, 10, 7]];
    let built = Game::with_frame_count(
        5,
        vec![
            Frame::new(Score::PINS(7), Score::PINS(1)),
            Frame::new(Score::PINS(9), Score::PINS(1)),
            Frame::new(Score::PINS(10), Score::EMPTY),
            Frame::new(Score::PINS(8), Score::PINS(2)),
            Frame::with_bonus(Score::PINS(10), Score::PINS(10), Score::PINS(7)),
        ],
    );
    let parsed = parse_score(groups);
    assert_eq!(parsed.computed(), built.computed());
    assert_eq!(parsed.score(), 95);
    assert_eq!(built.score(), 95);

    let with_markers = Game::with_frame_count(
        5,
        vec![
            Frame::new(Score::PINS(7), Score::PINS(1)),
            Frame::spare(9),
            Frame::strike(),
            Frame::spare(8),
            Frame::with_bonus(Score::STRIKE, Score::STRIKE, Score::PINS(7)),
        ],
    );
    assert_eq!(with_markers.computed(), vec![8, 28, 48, 68, 95]);
    assert_eq!(parsed.computed(), vec![8, 28, 48, 68, 95]);
}

#[test]
fn parse_raw_score_of_no_shots_is_the_game_without_frames() {
    for bonus in [false, true] {
        let game = parse_raw_score(vec![], bonus);
        assert_eq!(game.frame_count, 0);
        assert!(game.frames.is_empty());
    }
}

#[test]
fn parse_raw_score_pairs_shots_and_takes_strikes_alone() {
    let game = parse_raw_score(vec![10, 3, 4], false);
    assert_eq!(game.frame_count, 2);
    assert_eq!(game.frames, vec![Frame::strike(), Frame::new(Score::PINS(3), Score::PINS(4))]);
    assert_eq!(game.score(), 24);

    let strikes = parse_raw_score(vec![10, 10, 10], false);
    assert_eq!(strikes.frame_count, 3);
    assert_eq!(strikes.frames, vec![Frame::strike(); 3]);
    assert_eq!(strikes.score(), 60);
}

#[test]
fn parse_raw_score_pads_a_last_single_shot_with_no_pins() {
    let game = parse_raw_score(vec![3, 4, 5], false);
    assert_eq!(game.frame_count, 2);
    assert_eq!(
        game.frames,
        vec![Frame::new(Score::PINS(3), Score::PINS(4)), Frame::new(Score::PINS(5), Score::PINS(0))]
    );
    assert_eq!(game.score(), 12);

    let one = parse_raw_score(vec![5], false);
    assert_eq!(one.frames, vec![Frame::new(Score::PINS(5), Score::PINS(0))]);
}

#[test]
fn parse_raw_score_with_bonus_closes_with_the_last_three_shots() {
    let game = parse_raw_score(vec![1, 2, 3, 4, 5], true);
    assert_eq!(game.frame_count, 2);
    assert_eq!(
        game.frames,
        vec![
            Frame::new(Score::PINS(1), Score::PINS(2)),
            Frame::with_bonus(Score::PINS(3), Score::PINS(4), Score::PINS(5)),
        ]
    );
    assert_eq!(game.score(), 15);

    let strikes = parse_raw_score(vec![10, 10, 10, 10], true);
    assert_eq!(strikes.frame_count, 2);
    assert_eq!(
        strikes.frames,
        vec![
            Frame::strike(),
            Frame::with_bonus(Score::STRIKE, Score::PINS(10), Score::PINS(10)),
        ]
    );
    assert_eq!(strikes.score(), 60);
}

#[test]
fn parse_raw_score_with_bonus_and_fewer_than_three_shots() {
    let one = parse_raw_score(vec![5], true);
    assert_eq!(one.frame_count, 1);
    assert_eq!(one.frames, vec![Frame::new(Score::PINS(5), Score::PINS(0))]);

    let strike = parse_raw_score(vec![10], true);
    assert_eq!(strike.frames, vec![Frame::new(Score::STRIKE, Score::PINS(0))]);
    assert_eq!(strike.score(), 10);

    let two = parse_raw_score(vec![10, 10], true);
    assert_eq!(two.frame_count, 1);
    assert_eq!(two.frames, vec![Frame::new(Score::STRIKE, Score::PINS(10))]);
    assert_eq!(two.score(), 10);

    let open = parse_raw_score(vec![3, 4], true);
    assert_eq!(open.frames, vec![Frame::new(Score::PINS(3), Score::PINS(4))]);
    assert_eq!(open.score(), 7);
}

#[test]
fn parse_raw_score_without_bonus_takes_a_strike_marker_for_ten_or_more() {
    let game = parse_raw_score(vec![12, 3], false);
    assert_eq!(
        game.frames,
        vec![Frame::strike(), Frame::new(Score::PINS(3), Score::PINS(0))]
    );
}
