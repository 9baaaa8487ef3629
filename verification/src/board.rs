//! The 3x3 board: nine cells, each empty or holding a mark.

use vstd::prelude::*;
use vstd::string::*;
use crate::symbol::Symbol;
use crate::text::{digit_char, digit_text};

verus! {

/// The cells of a board on which nothing has been placed.
pub open spec fn empty_cells() -> Seq<Option<Symbol>> {
    Seq::new(9, |i: int| None::<Symbol>)
}

/// The eight lines of three cells that win the game: the three rows, the
/// three columns and the two diagonals.
pub open spec fn winning_lines() -> Seq<(int, int, int)> {
    seq![
        (0, 1, 2),
        (3, 4, 5),
        (6, 7, 8),
        (0, 3, 6),
        (1, 4, 7),
        (2, 5, 8),
        (0, 4, 8),
        (2, 4, 6),
    ]
}

/// Whether the three cells of `line` hold three equal marks.
pub open spec fn line_won(cells: Seq<Option<Symbol>>, line: (int, int, int)) -> bool {
    &&& cells[line.0] is Some
    &&& cells[line.0] == cells[line.1]
    &&& cells[line.0] == cells[line.2]
}

/// Whether each of the three cells of `line` holds the mark `symbol`.
pub open spec fn line_held_by(
    cells: Seq<Option<Symbol>>,
    line: (int, int, int),
    symbol: Symbol,
) -> bool {
    &&& cells[line.0] == Some(symbol)
    &&& cells[line.1] == Some(symbol)
    &&& cells[line.2] == Some(symbol)
}

/// Whether one of the eight winning lines holds three equal marks.
pub open spec fn has_winning_line(cells: Seq<Option<Symbol>>) -> bool {
    exists|k: int| 0 <= k < 8 && line_won(cells, #[trigger] winning_lines()[k])
}

/// The number of cells that hold a mark.
pub open spec fn marks_on(cells: Seq<Option<Symbol>>) -> nat
    decreases cells.len(),
{
    if cells.len() == 0 {
        0
    } else {
        marks_on(cells.drop_last()) + if cells.last() is Some {
            1nat
        } else {
            0nat
        }
    }
}

/// The character that a cell shows in the rendered board: its mark, or, while
/// it is empty, the digit of its own index, by which a player names it.
pub open spec fn cell_glyph(cell: Option<Symbol>, index: int) -> char {
    match cell {
        Some(symbol) => symbol.letter(),
        None => digit_char(index),
    }
}

/// The line of the rendered board that frames the rows.
pub open spec fn border_text() -> Seq<char> {
    "    +---+---+---+\n"@
}

/// The line of the rendered board that shows row `row` (0, 1 or 2): the
/// glyphs of its three cells between separators.
pub open spec fn row_text(cells: Seq<Option<Symbol>>, row: int) -> Seq<char> {
    "    | "@ + seq![cell_glyph(cells[3 * row], 3 * row)] + " | "@ + seq![
        cell_glyph(cells[3 * row + 1], 3 * row + 1),
    ] + " | "@ + seq![cell_glyph(cells[3 * row + 2], 3 * row + 2)] + " |\n"@
}

/// The rendered board: an empty line, then the three rows, each between two
/// border lines, then four blanks.
pub open spec fn rendered(cells: Seq<Option<Symbol>>) -> Seq<char> {
    "\n"@ + border_text() + row_text(cells, 0) + border_text() + row_text(cells, 1)
        + border_text() + row_text(cells, 2) + border_text() + "    "@
}

/// The one-character text that the cell at `index` shows.
pub fn cell_text(cell: Option<Symbol>, index: usize) -> (text: &'static str)
    requires
        index < 9,
    ensures
        text@ == seq![cell_glyph(cell, index as int)],
{
    match cell {
        Some(symbol) => symbol.as_str(),
        None => digit_text(index),
    }
}

/// Three equal marks on the cells of any of the eight winning lines win,
/// whatever the other cells hold.
pub proof fn lemma_full_line_wins(cells: Seq<Option<Symbol>>, k: int, symbol: Symbol)
    requires
        0 <= k < 8,
        line_held_by(cells, winning_lines()[k], symbol),
    ensures
        line_won(cells, winning_lines()[k]),
        has_winning_line(cells),
{
}

/// A line with an empty cell, or with two different marks, is not won.
pub proof fn lemma_broken_line_is_not_won(cells: Seq<Option<Symbol>>, line: (int, int, int))
    requires
        cells[line.0] is None || cells[line.1] is None || cells[line.2] is None || cells[line.0]
            != cells[line.1] || cells[line.0] != cells[line.2],
    ensures
        !line_won(cells, line),
{
}

/// Cells on which none of the eight winning lines is won have no winner.
pub proof fn lemma_no_line_no_winner(cells: Seq<Option<Symbol>>)
    requires
        forall|k: int| 0 <= k < 8 ==> !line_won(cells, #[trigger] winning_lines()[k]),
    ensures
        !has_winning_line(cells),
{
}

/// The empty board has nine empty cells and no winner.
pub proof fn lemma_empty_board()
    ensures
        empty_cells().len() == 9,
        forall|i: int| 0 <= i < 9 ==> empty_cells()[i] is None,
        !has_winning_line(empty_cells()),
{
}

/// Cells that are all empty hold no mark.
pub proof fn lemma_no_marks_on_empty_cells(cells: Seq<Option<Symbol>>)
    requires
        forall|i: int| 0 <= i < cells.len() ==> cells[i] is None,
    ensures
        marks_on(cells) == 0,
    decreases cells.len(),
{
    if cells.len() > 0 {
        lemma_no_marks_on_empty_cells(cells.drop_last());
    }
}

/// Cells that hold no mark are all empty.
pub proof fn lemma_no_marks_mean_empty_cells(cells: Seq<Option<Symbol>>, i: int)
    requires
        marks_on(cells) == 0,
        0 <= i < cells.len(),
    ensures
        cells[i] is None,
    decreases cells.len(),
{
    if i < cells.len() - 1 {
        lemma_no_marks_mean_empty_cells(cells.drop_last(), i);
    }
}

/// A mark placed on an empty cell is one mark more.
pub proof fn lemma_mark_added(cells: Seq<Option<Symbol>>, pos: int, symbol: Symbol)
    requires
        0 <= pos < cells.len(),
        cells[pos] is None,
    ensures
        marks_on(cells.update(pos, Some(symbol))) == marks_on(cells) + 1,
    decreases cells.len(),
{
    let after = cells.update(pos, Some(symbol));
    if pos == cells.len() - 1 {
        assert(after.drop_last() =~= cells.drop_last());
    } else {
        assert(after.drop_last() =~= cells.drop_last().update(pos, Some(symbol)));
        lemma_mark_added(cells.drop_last(), pos, symbol);
    }
}

/// There are at most as many marks as cells, and exactly as many only when
/// every cell holds one.
pub proof fn lemma_marks_fill_cells(cells: Seq<Option<Symbol>>)
    ensures
        marks_on(cells) <= cells.len(),
        marks_on(cells) == cells.len() <==> forall|i: int|
            0 <= i < cells.len() ==> cells[i] is Some,
    decreases cells.len(),
{
    if cells.len() > 0 {
        let front = cells.drop_last();
        lemma_marks_fill_cells(front);
        if marks_on(cells) == cells.len() {
            assert forall|i: int| 0 <= i < cells.len() implies cells[i] is Some by {
                if i < cells.len() - 1 {
                    assert(front[i] is Some);
                }
            }
        }
        if forall|i: int| 0 <= i < cells.len() ==> cells[i] is Some {
            assert forall|i: int| 0 <= i < front.len() implies front[i] is Some by {
                assert(cells[i] is Some);
            }
        }
    }
}

/// The rendered board has 131 characters. The glyph of the cell at `index`
/// stands in the grid at row `index / 3` and column `index % 3`: rows are 36
/// characters apart, columns 4, and the glyph of cell 0 is character 25.
pub proof fn lemma_rendered_glyph(cells: Seq<Option<Symbol>>, index: int)
    requires
        0 <= index < 9,
    ensures
        rendered(cells).len() == 131,
        rendered(cells)[25 + 36 * (index / 3) + 4 * (index % 3)] == cell_glyph(
            cells[index],
            index,
        ),
{
    reveal_strlit("\n");
    reveal_strlit("    +---+---+---+\n");
    reveal_strlit("    | ");
    reveal_strlit(" | ");
    reveal_strlit(" |\n");
    reveal_strlit("    ");
}

/// The board of one game. Its cells are numbered 0 to 8, left to right and
/// top to bottom. The view of a board is the sequence of its nine cells.
pub struct Board {
    board: [Option<Symbol>; 9],
}

impl View for Board {
    type V = Seq<Option<Symbol>>;

    closed spec fn view(&self) -> Seq<Option<Symbol>> {
        self.board@
    }
}

impl Board {
    /// A board has exactly nine cells, whatever has been placed on it.
    pub proof fn lemma_nine_cells(self)
        ensures
            self@.len() == 9,
    {
    }

    /// A board with all nine cells empty.
    pub fn new() -> (board: Board)
        ensures
            board@ == empty_cells(),
            !has_winning_line(board@),
    {
        let board = Board { board: [None;9] };
        assert(board@ =~= empty_cells());
        board
    }

    /// Places `symbol` on the empty cell at `pos`. Every other cell keeps
    /// what it held, so a cell that holds a mark is never emptied or
    /// overwritten.
    pub fn replace(&mut self, pos: usize, symbol: Symbol)
        requires
            pos < 9,
            old(self)@[pos as int] is None,
        ensures
            final(self)@ == old(self)@.update(pos as int, Some(symbol)),
    {
        self.board[pos] = Some(symbol);
    }

    /// The text of row `row` of the rendered board.
    fn row_string(&self, row: usize) -> (text: String)
        requires
            row < 3,
        ensures
            text@ == row_text(self@, row as int),
    {
        let first = 3 * row;
        let mut text = String::from_str("    | ");
        text.append(cell_text(self.board[first], first));
        text.append(" | ");
        text.append(cell_text(self.board[first + 1], first + 1));
        text.append(" | ");
        text.append(cell_text(self.board[first + 2], first + 2));
        text.append(" |\n");
        text
    }

    /// Renders the board as a framed text grid of three rows. A cell that
    /// holds a mark shows the mark; an empty cell shows its own index.
    pub fn render(&self) -> (text: String)
        ensures
            text@ == rendered(self@),
    {
        let mut text = String::from_str("\n");
        text.append("    +---+---+---+\n");
        text.append(self.row_string(0).as_str());
        text.append("    +---+---+---+\n");
        text.append(self.row_string(1).as_str());
        text.append("    +---+---+---+\n");
        text.append(self.row_string(2).as_str());
        text.append("    +---+---+---+\n");
        text.append("    ");
        text
    }

    /// Whether the cells at `a`, `b` and `c` hold three equal marks.
    fn holds_line(&self, a: usize, b: usize, c: usize) -> (won: bool)
        requires
            a < 9,
            b < 9,
            c < 9,
        ensures
            won == line_won(self@, (a as int, b as int, c as int)),
    {
        match (self.board[a], self.board[b], self.board[c]) {
            (Some(x), Some(y), Some(z)) => x == y && x == z,
            _ => false,
        }
    }

    /// Whether one of the eight winning lines holds three equal marks.
    pub fn has_winner(&self) -> (won: bool)
        ensures
            won == has_winning_line(self@),
    {
        let wins: [[usize; 3]; 8] = [
            [0, 1, 2],
            [3, 4, 5],
            [6, 7, 8],
            [0, 3, 6],
            [1, 4, 7],
            [2, 5, 8],
            [0, 4, 8],
            [2, 4, 6],
        ];
        let mut k: usize = 0;
        while k < 8
            invariant
                k <= 8,
                forall|j: int|
                    0 <= j < 8 ==> (#[trigger] wins@[j])@ == seq![
                        winning_lines()[j].0 as usize,
                        winning_lines()[j].1 as usize,
                        winning_lines()[j].2 as usize,
                    ],
                forall|j: int| 0 <= j < k ==> !line_won(self@, #[trigger] winning_lines()[j]),
            decreases 8 - k,
        {
            let line = wins[k];
            if self.holds_line(line[0], line[1], line[2]) {
                return true;
            }
            k += 1;
        }
        false
    }

    /// What the cell at `pos` holds.
    pub fn cell(&self, pos: usize) -> (cell: Option<Symbol>)
        requires
            pos < 9,
        ensures
            cell == self@[pos as int],
    {
        self.board[pos]
    }
}

} // verus!
