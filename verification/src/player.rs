//! The two players of a game and the order of their turns.

use vstd::prelude::*;
use crate::symbol::Symbol;

verus! {

/// A player: a name and the mark that the player places.
pub struct Player {
    pub name: String,
    pub symbol: Symbol,
}

/// A player as a value: the characters of the name, and the mark.
pub struct PlayerView {
    pub name: Seq<char>,
    pub symbol: Symbol,
}

impl View for Player {
    type V = PlayerView;

    open spec fn view(&self) -> PlayerView {
        PlayerView { name: self.name@, symbol: self.symbol }
    }
}

impl Clone for Player {
    fn clone(&self) -> (copy: Player)
        ensures
            copy == *self,
    {
        Player { name: self.name.clone(), symbol: self.symbol }
    }
}

impl Player {
    /// A player called `name` who places `symbol`.
    pub fn new(name: String, symbol: Symbol) -> (player: Player)
        ensures
            player.name == name,
            player.symbol == symbol,
    {
        Player { name, symbol }
    }
}

/// Which of the two names is missing from the command line.
#[derive(Clone, Copy, Debug, PartialEq, Eq, Structural)]
pub enum ArgumentError {
    /// No name follows the program's own name.
    MissingFirstName,
    /// Only one name follows the program's own name.
    MissingSecondName,
}

impl ArgumentError {
    /// The text of the message for this error.
    pub open spec fn message_text(self) -> Seq<char> {
        match self {
            ArgumentError::MissingFirstName => "Didn't get first name!"@,
            ArgumentError::MissingSecondName => "Didn't get second name!"@,
        }
    }

    /// The message that tells the user which name is missing.
    pub fn message(self) -> (text: &'static str)
        ensures
            text@ == self.message_text(),
    {
        match self {
            ArgumentError::MissingFirstName => "Didn't get first name!",
            ArgumentError::MissingSecondName => "Didn't get second name!",
        }
    }
}

/// The two players of a game as values: the one who moves first, and the
/// other.
pub struct PlayersView {
    pub first: PlayerView,
    pub second: PlayerView,
}

/// The player whose turn follows that of `current`: the second player after
/// a player who places `X`, the first player after any other.
pub open spec fn next_of(players: PlayersView, current: PlayerView) -> PlayerView {
    if current.symbol == Symbol::X {
        players.second
    } else {
        players.first
    }
}

/// The two players of a game. The first places `X`, the second places `O`.
pub struct Players {
    player_one: Player,
    player_two: Player,
}

impl View for Players {
    type V = PlayersView;

    closed spec fn view(&self) -> PlayersView {
        PlayersView { first: self.player_one@, second: self.player_two@ }
    }
}

impl Players {
    /// The two players have the two marks: the first `X`, the second `O`.
    pub open spec fn wf(&self) -> bool {
        &&& self@.first.symbol == Symbol::X
        &&& self@.second.symbol == Symbol::O
    }

    /// Makes the two players from the words of a command line: the
    /// program's own name, which is passed over, then the name of the first
    /// player, then the name of the second. Words after these are ignored.
    /// Fails if a name is missing, and says which.
    pub fn new(args: Vec<String>) -> (res: Result<Players, ArgumentError>)
        ensures
            match res {
                Ok(players) => {
                    &&& args@.len() >= 3
                    &&& players.wf()
                    &&& players@.first == (PlayerView { name: args@[1]@, symbol: Symbol::X })
                    &&& players@.second == (PlayerView { name: args@[2]@, symbol: Symbol::O })
                },
                Err(ArgumentError::MissingFirstName) => args@.len() < 2,
                Err(ArgumentError::MissingSecondName) => args@.len() == 2,
            },
    {
        if args.len() < 2 {
            return Err(ArgumentError::MissingFirstName);
        }
        if args.len() < 3 {
            return Err(ArgumentError::MissingSecondName);
        }
        let player_one = Player::new(args[1].clone(), Symbol::X);
        let player_two = Player::new(args[2].clone(), Symbol::O);
        Ok(Players { player_one, player_two })
    }

    /// The player who moves first.
    pub fn player_one(&self) -> (player: &Player)
        ensures
            player@ == self@.first,
    {
        &self.player_one
    }

    /// The player who moves second.
    pub fn player_two(&self) -> (player: &Player)
        ensures
            player@ == self@.second,
    {
        &self.player_two
    }

    /// The player whose turn follows that of `current_player`. The choice
    /// goes by the mark of `current_player`, not by the name.
    pub fn next_player(&self, current_player: Player) -> (next: Player)
        ensures
            next@ == next_of(self@, current_player@),
    {
        if current_player.symbol == Symbol::X {
            self.player_two.clone()
        } else {
            self.player_one.clone()
        }
    }

    /// Taking the next player twice, from either of the two players, gives
    /// that player again.
    pub proof fn lemma_next_player_twice(self, current: PlayerView)
        requires
            self.wf(),
            current == self@.first || current == self@.second,
        ensures
            next_of(self@, next_of(self@, current)) == current,
    {
    }

    /// The next player is always one of the two players, and, after one of
    /// the two, the other one.
    pub proof fn lemma_next_player_is_the_other(self, current: PlayerView)
        requires
            self.wf(),
        ensures
            next_of(self@, current) == self@.first || next_of(self@, current) == self@.second,
            current == self@.first ==> next_of(self@, current) == self@.second,
            current == self@.second ==> next_of(self@, current) == self@.first,
            next_of(self@, current).symbol != current.symbol,
    {
    }
}

} // verus!
