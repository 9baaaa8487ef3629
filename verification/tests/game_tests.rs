use tic_tac_toe::{
    Game, GameOutcome, GameState, ParseError, Players, Symbol, ValidationError,
};

fn game_of(first: &str, second: &str) -> Game {
    let args = vec!["game".to_string(), first.to_string(), second.to_string()];
    Game::new(Players::new(args).ok().unwrap())
}

fn play(game: &mut Game, moves: &[&str]) {
    for line in moves {
        assert_eq!(game.state(), GameState::AwaitingMove);
        assert!(game.take_turn(line).is_ok(), "move {:?}", line);
    }
}

fn message_of(game: &Game) -> Option<String> {
    game.outcome().map(|outcome| outcome.message())
}

#[test]
fn new_game_awaits_the_first_players_move_on_an_empty_board() {
    let game = game_of("ann", "bob");
    assert_eq!(game.state(), GameState::AwaitingMove);
    assert_eq!(game.turns(), 0);
    assert!(game.outcome().is_none());
    let to_move = game.player_to_move();
    assert_eq!(to_move.name, "ann");
    assert_eq!(to_move.symbol, Symbol::X);
    for pos in 0..9 {
        assert_eq!(game.board().cell(pos), None);
    }
    assert_eq!(game.players().player_one().name, "ann");
    assert_eq!(game.players().player_two().name, "bob");
}

#[test]
fn players_move_in_turns_and_x_moves_first() {
    let mut game = game_of("ann", "bob");
    assert_eq!(game.take_turn("4\n"), Ok(4));
    assert_eq!(game.board().cell(4), Some(Symbol::X));
    assert_eq!(game.turns(), 1);
    assert_eq!(game.player_to_move().name, "bob");
    assert_eq!(game.take_turn("0\n"), Ok(0));
    assert_eq!(game.board().cell(0), Some(Symbol::O));
    assert_eq!(game.turns(), 2);
    assert_eq!(game.player_to_move().name, "ann");
    assert_eq!(game.state(), GameState::AwaitingMove);
}

#[test]
fn x_wins_with_the_top_row_on_the_fifth_turn() {
    let mut game = game_of("X", "O");
    play(&mut game, &["0", "3", "1", "4"]);
    assert_eq!(game.state(), GameState::AwaitingMove);
    assert!(game.outcome().is_none());
    assert_eq!(game.take_turn("2"), Ok(2));
    assert_eq!(game.turns(), 5);
    assert_eq!(game.state(), GameState::WinDetected);
    assert_eq!(message_of(&game), Some("X won!".to_string()));
    assert!(game.board().has_winner());
}

#[test]
fn the_winner_is_announced_by_name() {
    let mut game = game_of("ann", "bob");
    play(&mut game, &["0", "3", "1", "4", "8", "5"]);
    assert_eq!(game.state(), GameState::WinDetected);
    assert_eq!(game.turns(), 6);
    match game.outcome() {
        Some(GameOutcome::Win(player)) => {
            assert_eq!(player.name, "bob");
            assert_eq!(player.symbol, Symbol::O);
        }
        _ => panic!("the game is won"),
    }
    assert_eq!(message_of(&game), Some("bob won!".to_string()));
}

#[test]
fn a_full_board_without_a_line_is_a_draw_on_the_ninth_turn() {
    let mut game = game_of("ann", "bob");
    let moves = ["0", "1", "2", "4", "3", "5", "7", "6", "8"];
    for (turn, line) in moves.iter().enumerate() {
        assert_eq!(game.state(), GameState::AwaitingMove, "before turn {}", turn + 1);
        assert!(game.outcome().is_none());
        assert!(game.take_turn(line).is_ok());
        assert_eq!(game.turns(), turn + 1);
    }
    assert_eq!(game.state(), GameState::BoardFull);
    assert!(matches!(game.outcome(), Some(GameOutcome::Draw)));
    assert_eq!(message_of(&game), Some("Draw!".to_string()));
    assert!(!game.board().has_winner());
    for pos in 0..9 {
        assert!(game.board().cell(pos).is_some());
    }
}

#[test]
fn a_line_completed_on_the_ninth_turn_is_a_win_not_a_draw() {
    let mut game = game_of("ann", "bob");
    play(&mut game, &["0", "3", "1", "4", "5", "7", "6", "8"]);
    assert_eq!(game.state(), GameState::AwaitingMove);
    assert_eq!(game.take_turn("2"), Ok(2));
    assert_eq!(game.turns(), 9);
    assert_eq!(game.state(), GameState::WinDetected);
    assert_eq!(message_of(&game), Some("ann won!".to_string()));
}

#[test]
fn a_rejected_line_leaves_the_game_as_it_was() {
    let mut game = game_of("ann", "bob");
    play(&mut game, &["4"]);
    let board_before = game.board().render();
    let rejected = [
        ("abc", ValidationError::Parse(ParseError::InvalidDigit)),
        ("", ValidationError::Parse(ParseError::Empty)),
        ("9", ValidationError::OutOfRange(9)),
        ("-1", ValidationError::Parse(ParseError::InvalidDigit)),
        ("4", ValidationError::Occupied(4, Symbol::X)),
    ];
    for (line, error) in rejected {
        assert_eq!(game.take_turn(line), Err(error), "line {:?}", line);
        assert_eq!(game.board().render(), board_before);
        assert_eq!(game.turns(), 1);
        assert_eq!(game.state(), GameState::AwaitingMove);
        assert_eq!(game.player_to_move().name, "bob");
    }
    assert_eq!(game.take_turn("5"), Ok(5));
    assert_eq!(game.board().cell(5), Some(Symbol::O));
}

#[test]
fn a_mark_once_placed_stays() {
    let mut game = game_of("ann", "bob");
    let moves = ["0", "1", "2", "4", "3", "5", "7", "6", "8"];
    let mut placed: Vec<(usize, Symbol)> = Vec::new();
    for line in moves {
        let mover = game.player_to_move().symbol;
        let pos = game.take_turn(line).ok().unwrap();
        placed.push((pos, mover));
        for &(at, symbol) in &placed {
            assert_eq!(game.board().cell(at), Some(symbol));
        }
    }
}

#[test]
fn outcome_messages() {
    assert_eq!(GameOutcome::Draw.message(), "Draw!");
    let players = Players::new(vec![
        "game".to_string(),
        "Ann Lee".to_string(),
        "bob".to_string(),
    ])
    .ok()
    .unwrap();
    assert_eq!(
        GameOutcome::Win(players.player_one().clone()).message(),
        "Ann Lee won!"
    );
}
