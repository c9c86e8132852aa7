use bowling_rs::{Frame, Game, Score};

#[test]
fn game_300() {
    let mut game = Game::new(vec![Frame::strike(); 9]);
    game.frames.push(Frame::triple_strike());

    assert_eq!(game.score(), 300);
}

#[test]
fn game_299() {
    let mut game = Game::new(vec![Frame::strike(); 9]);
    game.frames.push(Frame::with_bonus(Score::STRIKE, Score::STRIKE, Score::PINS(9)));

    assert_eq!(game.score(), 299);
}

#[test]
fn game_290_0() {
    let mut game = Game::new(vec![Frame::strike(); 9]);
    game.frames.push(Frame::with_bonus(Score::STRIKE, Score::STRIKE, Score::PINS(0)));

    assert_eq!(game.score(), 290);
}

#[test]
fn game_290_1() {
    let mut game = Game::new(vec![Frame::spare(9)]);
    game.frames.append(&mut vec![Frame::strike(); 8]);
    game.frames.push(Frame::triple_strike());

    assert_eq!(game.score(), 290);
}

#[test]
fn game_289() {
    let mut game = Game::new(vec![Frame::strike(); 9]);
    game.frames.push(Frame::with_bonus(Score::STRIKE, Score::PINS(9), Score::SPARE));

    assert_eq!(game.score(), 289);
}

#[test]
fn game_280() {
    let mut game = Game::new(vec![Frame::strike(), Frame::spare(9)]);
    game.frames.append(&mut vec![Frame::strike(); 7]);
    game.frames.push(Frame::triple_strike());

    assert_eq!(game.score(), 280);
}

#[test]
fn game_279_0() {
    let mut game = Game::new(vec![Frame::strike(), Frame::strike(), Frame::spare(9)]);
    game.frames.append(&mut vec![Frame::strike(); 6]);
    game.frames.push(Frame::triple_strike());

    assert_eq!(game.score(), 279);
}

#[test]
fn game_279_1() {
    let mut game = Game::new(vec![Frame::strike(); 9]);
    game.frames.push(Frame::with_bonus(Score::PINS(9), Score::SPARE, Score::STRIKE));

    assert_eq!(game.score(), 279);
}

#[test]
fn game_245() {
    let game = Game::new(vec![
        Frame::new(Score::PINS(7), Score::PINS(1)),
        Frame::spare(9),
        Frame::strike(),
        Frame::spare(8),
        Frame::strike(),
        Frame::strike(),
        Frame::strike(),
        Frame::strike(),
        Frame::strike(),
        Frame::with_bonus(Score::STRIKE, Score::STRIKE, Score::PINS(7)),
    ]);
    assert_eq!(game.score(), 245);
}

#[test]
fn game_223() {
    let game = Game::new(vec![
        Frame::spare(9),
        Frame::spare(8),
        Frame::strike(),
        Frame::strike(),
        Frame::strike(),
        Frame::strike(),
        Frame::spare(8),
        Frame::strike(),
        Frame::strike(),
        Frame::new(Score::PINS(9), Score::PINS(0)),
    ]);
    assert_eq!(game.score(), 223);
}

#[test]
fn game_200() {
    let game = Game::new(vec![
        Frame::spare(9),
        Frame::strike(),
        Frame::spare(9),
        Frame::strike(),
        Frame::spare(9),
        Frame::strike(),
        Frame::spare(9),
        Frame::strike(),
        Frame::spare(9),
        Frame::with_bonus(Score::STRIKE, Score::PINS(9), Score::SPARE),
    ]);
    assert_eq!(game.score(), 200);
}

#[test]
fn game_0() {
    let game = Game::new(vec![]);
    assert_eq!(game.score(), 0);
}

#[test]
fn spare_strike() {
    let game = Game::new(vec![Frame::spare(9), Frame::strike()]);
    assert_eq!(game.score(), 30);
}

#[test]
fn spare_5() {
    let game = Game::new(vec![Frame::spare(9), Frame::new(Score::PINS(5), Score::PINS(0))]);
    assert_eq!(game.score(), 20);
}

#[test]
fn strike_5_2_1() {
    let game = Game::new(vec![
        Frame::strike(),
        Frame::new(Score::PINS(5), Score::PINS(2)),
        Frame::new(Score::PINS(1), Score::PINS(0)),
    ]);
    assert_eq!(game.score(), 25);
}

#[test]
fn spare_strike_spare() {
    let game = Game::new(vec![Frame::spare(9), Frame::strike(), Frame::spare(9)]);
    assert_eq!(game.score(), 50);
}

#[test]
fn max_300() {
    let game = Game::new(vec![]);
    assert_eq!(game.max(), 300);
}

#[test]
fn max_290() {
    let game = Game::new(vec![Frame::new(Score::PINS(9), Score::EMPTY)]);
    assert_eq!(game.max(), 290);
}

#[test]
fn max_289() {
    let mut game = Game::new(vec![Frame::strike(); 9]);
    game.frames.push(Frame::with_bonus(Score::STRIKE, Score::PINS(9), Score::EMPTY));

    assert_eq!(game.max(), 289);
}

#[test]
fn max_279_0() {
    let game = Game::new(vec![Frame::new(Score::PINS(9), Score::PINS(0))]);
    assert_eq!(game.max(), 279);
}

#[test]
fn max_279_1() {
    let game = Game::new(vec![
        Frame::strike(),
        Frame::strike(),
        Frame::new(Score::PINS(9), Score::EMPTY),
    ]);
    assert_eq!(game.max(), 279);
}
