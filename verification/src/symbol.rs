//! The two marks of the game.

use vstd::prelude::*;

verus! {

/// A mark that a player places on the board. `X` belongs to the first
/// player, `O` to the second.
#[derive(Clone, Copy, Debug, Hash, PartialEq, Eq, Structural)]
pub enum Symbol {
    X,
    O,
}

impl Symbol {
    /// The mark that is not `self`.
    pub open spec fn opposite(self) -> Symbol {
        match self {
            Symbol::X => Symbol::O,
            Symbol::O => Symbol::X,
        }
    }

    /// The letter that stands for this mark in text.
    pub open spec fn letter(self) -> char {
        match self {
            Symbol::X => 'X',
            Symbol::O => 'O',
        }
    }

    /// The text of this mark: the one letter `X` or `O`.
    pub fn as_str(self) -> (text: &'static str)
        ensures
            text@ == seq![self.letter()],
    {
        match self {
            Symbol::X => {
                proof {
                    reveal_strlit("X");
                }
                assert("X"@ =~= seq!['X']);
                "X"
            },
            Symbol::O => {
                proof {
                    reveal_strlit("O");
                }
                assert("O"@ =~= seq!['O']);
                "O"
            },
        }
    }
}

} // verus!
