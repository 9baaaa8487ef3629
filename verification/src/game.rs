//! One game, turn by turn.
//!
//! A game waits for a move until a line of three equal marks appears or all
//! nine cells are taken. Each typed line is one step: a line that is not a
//! valid move changes nothing, a valid move places the mark of the player
//! whose turn it is.

use vstd::prelude::*;
use vstd::string::*;
use crate::board::{
    empty_cells, has_winning_line, lemma_mark_added, lemma_marks_fill_cells,
    lemma_no_marks_mean_empty_cells, lemma_no_marks_on_empty_cells, line_held_by, line_won,
    marks_on, winning_lines, Board,
};
use crate::input::{validate, validated, ValidationError};
use crate::player::{next_of, Player, PlayerView, Players, PlayersView};
use crate::symbol::Symbol;

verus! {

/// Where a game stands.
#[derive(Clone, Copy, Debug, PartialEq, Eq, Structural)]
pub enum GameState {
    /// The game goes on: the next player is to move.
    AwaitingMove,
    /// The last move completed a line of three equal marks.
    WinDetected,
    /// All nine cells are taken and no line is won.
    BoardFull,
}

/// How a game ended.
pub enum GameOutcome {
    /// The player carried here completed a line of three marks.
    Win(Player),
    /// All nine cells were taken and no line was won.
    Draw,
}

/// The end of a game as a value.
pub enum GameOutcomeView {
    Win(PlayerView),
    Draw,
}

impl View for GameOutcome {
    type V = GameOutcomeView;

    open spec fn view(&self) -> GameOutcomeView {
        match self {
            GameOutcome::Win(player) => GameOutcomeView::Win(player@),
            GameOutcome::Draw => GameOutcomeView::Draw,
        }
    }
}

/// The line that announces `outcome`: the winner's name and ` won!`, or
/// `Draw!`.
pub open spec fn outcome_text(outcome: GameOutcomeView) -> Seq<char> {
    match outcome {
        GameOutcomeView::Win(player) => player.name + " won!"@,
        GameOutcomeView::Draw => "Draw!"@,
    }
}

impl GameOutcome {
    /// The line that announces this outcome.
    pub fn message(&self) -> (text: String)
        ensures
            text@ == outcome_text(self@),
    {
        match self {
            GameOutcome::Win(player) => {
                let mut text = player.name.clone();
                text.append(" won!");
                text
            },
            GameOutcome::Draw => String::from_str("Draw!"),
        }
    }
}

/// A game as a value.
pub struct GameView {
    /// The nine cells of the board.
    pub cells: Seq<Option<Symbol>>,
    /// The two players.
    pub players: PlayersView,
    /// The player who moved last; before the first move, the second player.
    pub last_player: PlayerView,
    /// The number of moves made.
    pub turns: nat,
    /// Where the game stands.
    pub state: GameState,
}

/// The game before the first move: an empty board, and the first player to
/// move.
pub open spec fn initial_game(players: PlayersView) -> GameView {
    GameView {
        cells: empty_cells(),
        players,
        last_player: players.second,
        turns: 0,
        state: GameState::AwaitingMove,
    }
}

/// The game after the player whose turn it is has placed a mark on the cell
/// at `pos`. The game is won if a line is now won, drawn if this was the
/// ninth move and no line is won, and goes on otherwise.
pub open spec fn after_move(game: GameView, pos: int) -> GameView {
    let mover = next_of(game.players, game.last_player);
    let cells = game.cells.update(pos, Some(mover.symbol));
    let turns = game.turns + 1;
    GameView {
        cells,
        players: game.players,
        last_player: mover,
        turns,
        state: if has_winning_line(cells) {
            GameState::WinDetected
        } else if turns == 9 {
            GameState::BoardFull
        } else {
            GameState::AwaitingMove
        },
    }
}

/// The game after the line `raw` has been typed as the next move: the game
/// after that move if the line is a valid move, the same game if it is not.
pub open spec fn after_input(game: GameView, raw: Seq<char>) -> GameView {
    match validated(raw, game.cells) {
        Ok(pos) => after_move(game, pos as int),
        Err(_) => game,
    }
}

/// How `game` ended, if it has ended: a game that is won was won by the
/// player who moved last.
pub open spec fn outcome_of(game: GameView) -> Option<GameOutcomeView> {
    match game.state {
        GameState::AwaitingMove => None,
        GameState::WinDetected => Some(GameOutcomeView::Win(game.last_player)),
        GameState::BoardFull => Some(GameOutcomeView::Draw),
    }
}

/// What holds of a game in every state that play can reach.
pub open spec fn valid_game(game: GameView) -> bool {
    &&& game.cells.len() == 9
    &&& game.players.first.symbol == Symbol::X
    &&& game.players.second.symbol == Symbol::O
    &&& game.last_player == game.players.first || game.last_player == game.players.second
    &&& game.turns == marks_on(game.cells)
    &&& game.turns <= 9
    &&& game.turns % 2 == 1 <==> game.last_player == game.players.first
    &&& match game.state {
        GameState::AwaitingMove => game.turns < 9 && !has_winning_line(game.cells),
        GameState::WinDetected => {
            &&& has_winning_line(game.cells)
            &&& forall|k: int|
                0 <= k < 8 && line_won(game.cells, #[trigger] winning_lines()[k]) ==> line_held_by(
                    game.cells,
                    winning_lines()[k],
                    game.last_player.symbol,
                )
        },
        GameState::BoardFull => game.turns == 9 && !has_winning_line(game.cells),
    }
}

/// The game before the first move is valid.
pub proof fn lemma_initial_game_is_valid(players: PlayersView)
    requires
        players.first.symbol == Symbol::X,
        players.second.symbol == Symbol::O,
    ensures
        valid_game(initial_game(players)),
{
    lemma_no_marks_on_empty_cells(empty_cells());
}

/// A typed line takes a valid game that awaits a move to a valid game.
pub proof fn lemma_input_keeps_game_valid(game: GameView, raw: Seq<char>)
    requires
        valid_game(game),
        game.state == GameState::AwaitingMove,
    ensures
        valid_game(after_input(game, raw)),
{
    if let Ok(pos) = validated(raw, game.cells) {
        let mover = next_of(game.players, game.last_player);
        let after = after_move(game, pos as int);
        lemma_mark_added(game.cells, pos as int, mover.symbol);
        assert forall|k: int|
            0 <= k < 8 && line_won(after.cells, #[trigger] winning_lines()[k]) implies line_held_by(
            after.cells,
            winning_lines()[k],
            mover.symbol,
        ) by {
            assert(!line_won(game.cells, winning_lines()[k]));
        }
    }
}

/// A line that is not a valid move leaves the game as it was: the board,
/// the turn and the state.
pub proof fn lemma_rejected_input_changes_nothing(game: GameView, raw: Seq<char>)
    requires
        validated(raw, game.cells) is Err,
    ensures
        after_input(game, raw) == game,
{
}

/// A typed line changes at most one cell, and never one that holds a mark: a
/// valid move fills the empty cell that it names, and counts as one turn.
pub proof fn lemma_input_keeps_marks(game: GameView, raw: Seq<char>)
    requires
        game.cells.len() == 9,
    ensures
        forall|i: int|
            0 <= i < 9 && game.cells[i] is Some ==> after_input(game, raw).cells[i]
                == game.cells[i],
        validated(raw, game.cells) matches Ok(pos) ==> {
            &&& game.cells[pos as int] is None
            &&& after_input(game, raw).cells[pos as int] == Some(
                next_of(game.players, game.last_player).symbol,
            )
            &&& after_input(game, raw).turns == game.turns + 1
            &&& forall|i: int|
                0 <= i < 9 && i != pos ==> after_input(game, raw).cells[i] == game.cells[i]
        },
{
}

/// The players move in turns, and the first player, who places `X`, moves
/// first: before an even number of moves it is the first player's turn,
/// before an odd number the second player's.
pub proof fn lemma_turn_order(game: GameView)
    requires
        valid_game(game),
    ensures
        next_of(game.players, game.last_player) == if game.turns % 2 == 0 {
            game.players.first
        } else {
            game.players.second
        },
{
}

/// A game is over after nine moves at the latest, and while it awaits a
/// move there is an empty cell to move to.
pub proof fn lemma_game_ends_within_nine_moves(game: GameView)
    requires
        valid_game(game),
    ensures
        game.turns <= 9,
        game.turns == 9 ==> game.state != GameState::AwaitingMove,
        game.state == GameState::AwaitingMove ==> exists|i: int|
            0 <= i < 9 && (#[trigger] game.cells[i]) is None,
{
    lemma_marks_fill_cells(game.cells);
}

/// A game has at most one winner: when a line is won, every line that is
/// won holds the mark of the player who moved last, that player is the
/// outcome, and the other player's mark holds no line.
pub proof fn lemma_only_the_last_player_wins(game: GameView, k: int)
    requires
        valid_game(game),
        game.state == GameState::WinDetected,
        0 <= k < 8,
    ensures
        game.turns >= 1,
        outcome_of(game) == Some(GameOutcomeView::Win(game.last_player)),
        line_won(game.cells, winning_lines()[k]) ==> line_held_by(
            game.cells,
            winning_lines()[k],
            game.last_player.symbol,
        ),
        !line_held_by(game.cells, winning_lines()[k], game.last_player.symbol.opposite()),
{
    if game.turns == 0 {
        let won = choose|j: int| 0 <= j < 8 && line_won(game.cells, #[trigger] winning_lines()[j]);
        lemma_no_marks_mean_empty_cells(game.cells, winning_lines()[won].0);
    }
}

/// A game is drawn only with all nine cells taken and no line won.
pub proof fn lemma_draw_fills_the_board(game: GameView)
    requires
        valid_game(game),
        game.state == GameState::BoardFull,
    ensures
        forall|i: int| 0 <= i < 9 ==> game.cells[i] is Some,
        !has_winning_line(game.cells),
        outcome_of(game) == Some(GameOutcomeView::Draw),
{
    lemma_marks_fill_cells(game.cells);
}

/// One game of two players on one board.
pub struct Game {
    board: Board,
    players: Players,
    current_player: Player,
    turns: usize,
    state: GameState,
}

impl View for Game {
    type V = GameView;

    closed spec fn view(&self) -> GameView {
        GameView {
            cells: self.board@,
            players: self.players@,
            last_player: self.current_player@,
            turns: self.turns as nat,
            state: self.state,
        }
    }
}

impl Game {
    /// The game is in a state that play can reach.
    pub open spec fn wf(&self) -> bool {
        valid_game(self@)
    }

    /// A game of `players` before the first move.
    pub fn new(players: Players) -> (game: Game)
        requires
            players.wf(),
        ensures
            game.wf(),
            game@ == initial_game(players@),
    {
        let current_player = players.player_two().clone();
        let board = Board::new();
        proof {
            lemma_initial_game_is_valid(players@);
        }
        Game { board, players, current_player, turns: 0, state: GameState::AwaitingMove }
    }

    /// Takes the typed line `raw_input` as the move of the player whose
    /// turn it is. A line that is not a valid move is rejected with the
    /// reason, and the game stays as it was. A valid move places that
    /// player's mark on the cell it names and returns the position; the game
    /// is then won, drawn or awaits the other player's move.
    pub fn take_turn(&mut self, raw_input: &str) -> (res: Result<usize, ValidationError>)
        requires
            old(self).wf(),
            old(self)@.state == GameState::AwaitingMove,
        ensures
            final(self).wf(),
            res == validated(raw_input@, old(self)@.cells),
            final(self)@ == after_input(old(self)@, raw_input@),
            res is Err ==> final(self)@ == old(self)@,
    {
        proof {
            lemma_input_keeps_game_valid(self@, raw_input@);
        }
        let pos = match validate(raw_input, &self.board) {
            Ok(pos) => pos,
            Err(error) => {
                return Err(error);
            },
        };
        let mover = self.players.next_player(self.current_player.clone());
        self.board.replace(pos, mover.symbol);
        self.current_player = mover;
        self.turns = self.turns + 1;
        if self.board.has_winner() {
            self.state = GameState::WinDetected;
        } else if self.turns == 9 {
            self.state = GameState::BoardFull;
        }
        Ok(pos)
    }

    /// The board as it stands.
    pub fn board(&self) -> (board: &Board)
        ensures
            board@ == self@.cells,
    {
        &self.board
    }

    /// The two players.
    pub fn players(&self) -> (players: &Players)
        ensures
            players@ == self@.players,
    {
        &self.players
    }

    /// Where the game stands.
    pub fn state(&self) -> (state: GameState)
        ensures
            state == self@.state,
    {
        self.state
    }

    /// The number of moves made.
    pub fn turns(&self) -> (turns: usize)
        ensures
            turns == self@.turns,
    {
        self.turns
    }

    /// The player whose turn it is, or would be if the game went on.
    pub fn player_to_move(&self) -> (player: Player)
        ensures
            player@ == next_of(self@.players, self@.last_player),
    {
        self.players.next_player(self.current_player.clone())
    }

    /// How the game ended: nothing while it awaits a move, the winner when a
    /// line is won, a draw when the board is full.
    pub fn outcome(&self) -> (outcome: Option<GameOutcome>)
        ensures
            match outcome {
                Some(end) => outcome_of(self@) == Some(end@),
                None => outcome_of(self@) is None,
            },
    {
        match self.state {
            GameState::AwaitingMove => None,
            GameState::WinDetected => Some(GameOutcome::Win(self.current_player.clone())),
            GameState::BoardFull => Some(GameOutcome::Draw),
        }
    }
}

} // verus!
