//! The game state: a grid of column stacks, the player to move and the
//! column that the floating piece aims at.

use vstd::prelude::*;
use crate::cell::{Cell, Player};
use crate::input::InputEvent;

verus! {

/// Number of columns of the board.
pub const COLS: usize = 7;

/// Number of rows of the board.
pub const ROWS: usize = 6;

/// The column that the floating piece returns to after a drop.
pub const HOME_COLUMN: usize = 0;

/// A sideways step of the floating piece.
#[derive(Clone, Copy, Debug, PartialEq, Eq, Structural)]
pub enum Direction {
    Left,
    Right,
}

/// No cell of the first `n` of `column` is empty.
pub open spec fn occupied_below(column: Seq<Cell>, n: int) -> bool {
    forall|i: int| 0 <= i < n ==> !(#[trigger] column[i] is Empty)
}

/// The column has no empty cell.
pub open spec fn column_full(column: Seq<Cell>) -> bool {
    occupied_below(column, column.len() as int)
}

/// `row` is the lowest empty cell of `column`.
pub open spec fn is_lowest_empty(column: Seq<Cell>, row: int) -> bool {
    &&& 0 <= row < column.len()
    &&& column[row] is Empty
    &&& occupied_below(column, row)
}

/// The index of the lowest empty cell of a column that is not full.
pub open spec fn lowest_empty(column: Seq<Cell>) -> int {
    choose|row: int| is_lowest_empty(column, row)
}

/// No empty cell lies below an occupied one: the empty cells are the top of
/// the column.
pub open spec fn settled(column: Seq<Cell>) -> bool {
    forall|i: int, j: int|
        0 <= i < j < column.len() && (#[trigger] column[i] is Empty) ==> (#[trigger] column[j] is Empty)
}

/// The mathematical model of the game state. `columns[c][r]` is the cell of
/// column `c` in row `r`, row 0 at the bottom.
pub struct BoardView {
    pub columns: Seq<Seq<Cell>>,
    pub active: Player,
    pub floating: int,
}

impl BoardView {
    /// The grid has its fixed size, every column is settled and the floating
    /// piece aims at a column of the board.
    pub open spec fn valid(self) -> bool {
        &&& self.columns.len() == COLS
        &&& forall|c: int| 0 <= c < COLS ==> (#[trigger] self.columns[c]).len() == ROWS
        &&& forall|c: int| 0 <= c < COLS ==> settled(#[trigger] self.columns[c])
        &&& 0 <= self.floating < COLS
    }

    /// The state at the start of a game.
    pub open spec fn initial() -> BoardView {
        BoardView {
            columns: Seq::new(COLS as nat, |c: int| Seq::new(ROWS as nat, |r: int| Cell::Empty)),
            active: Player::A,
            floating: HOME_COLUMN as int,
        }
    }

    /// The column that the floating piece aims at.
    pub open spec fn target(self) -> Seq<Cell> {
        self.columns[self.floating]
    }

    /// Whether a drop would place a piece.
    pub open spec fn can_drop(self) -> bool {
        !column_full(self.target())
    }

    /// The state after the floating piece took one step, staying on the board.
    pub open spec fn moved(self, direction: Direction) -> BoardView {
        BoardView {
            floating: match direction {
                Direction::Left => if self.floating > 0 { self.floating - 1 } else { self.floating },
                Direction::Right => if self.floating < COLS - 1 { self.floating + 1 } else { self.floating },
            },
            ..self
        }
    }

    /// The state after a drop: the active player's piece in the lowest empty
    /// cell of the target column, the turn passed on and the floating piece
    /// back home; or the same state where the target column is full.
    pub open spec fn dropped(self) -> BoardView {
        if self.can_drop() {
            BoardView {
                columns: self.columns.update(
                    self.floating,
                    self.target().update(lowest_empty(self.target()), self.active.cell()),
                ),
                active: self.active.other(),
                floating: HOME_COLUMN as int,
            }
        } else {
            self
        }
    }

    /// The state after one event. Only moves and drops touch the board.
    pub open spec fn after(self, event: InputEvent) -> BoardView {
        match event {
            InputEvent::MoveLeft => self.moved(Direction::Left),
            InputEvent::MoveRight => self.moved(Direction::Right),
            InputEvent::Drop => self.dropped(),
            InputEvent::Quit => self,
            InputEvent::RecolorAccent => self,
        }
    }

    /// The state after a sequence of events, the first of them first.
    pub open spec fn after_all(self, events: Seq<InputEvent>) -> BoardView
        decreases events.len(),
    {
        if events.len() == 0 {
            self
        } else {
            self.after_all(events.drop_last()).after(events.last())
        }
    }
}

/// A column has at most one lowest empty cell.
pub proof fn lemma_lowest_empty_unique(column: Seq<Cell>, row: int)
    requires
        is_lowest_empty(column, row),
    ensures
        lowest_empty(column) == row,
        !column_full(column),
{
    let other = lowest_empty(column);
    assert(is_lowest_empty(column, other));
    if other < row {
        assert(!(column[other] is Empty));
    }
    if row < other {
        assert(!(column[row] is Empty));
    }
}

/// A column that is not full has a lowest empty cell.
pub proof fn lemma_lowest_empty_exists(column: Seq<Cell>)
    requires
        !column_full(column),
    ensures
        is_lowest_empty(column, lowest_empty(column)),
{
    lemma_first_empty(column, column.len() as int);
}

/// If some cell among the first `n` is empty, one of them is the lowest.
proof fn lemma_first_empty(column: Seq<Cell>, n: int)
    requires
        0 <= n <= column.len(),
        !occupied_below(column, n),
    ensures
        exists|row: int| row < n && is_lowest_empty(column, row),
    decreases n,
{
    if n > 0 {
        if occupied_below(column, n - 1) {
            assert(column[n - 1] is Empty);
            assert(is_lowest_empty(column, n - 1));
        } else {
            lemma_first_empty(column, n - 1);
        }
    }
}

/// The game state.
#[derive(Clone, Debug, PartialEq, Eq)]
pub struct BoardState {
    cells: [[Cell; ROWS]; COLS],
    active: Player,
    floating: usize,
}

impl View for BoardState {
    type V = BoardView;

    closed spec fn view(&self) -> BoardView {
        BoardView {
            columns: Seq::new(COLS as nat, |c: int| self.cells[c]@),
            active: self.active,
            floating: self.floating as int,
        }
    }
}

impl BoardState {
    /// The state's invariant, that of its model.
    pub open spec fn wf(&self) -> bool {
        self@.valid()
    }

    /// An empty board, player A to move, the floating piece at home.
    pub fn new() -> (board: BoardState)
        ensures
            board.wf(),
            board@ == BoardView::initial(),
    {
        let board = BoardState {
            cells: [[Cell::Empty; ROWS]; COLS],
            active: Player::A,
            floating: HOME_COLUMN,
        };
        proof {
            assert forall|c: int| 0 <= c < COLS implies #[trigger] board@.columns[c] =~= Seq::new(
                ROWS as nat,
                |r: int| Cell::Empty,
            ) by {}
            assert(board@.columns =~= BoardView::initial().columns);
        }
        board
    }

    /// The player to move: the colour of the floating piece and of the next
    /// piece dropped.
    pub fn color_for_turn(&self) -> (player: Player)
        ensures
            player == self@.active,
    {
        self.active
    }

    /// The column that the floating piece aims at.
    pub fn floating_column(&self) -> (column: usize)
        ensures
            column == self@.floating,
            self.wf() ==> column < COLS,
    {
        self.floating
    }

    /// The cell of column `column` in row `row`, row 0 at the bottom.
    pub fn cell(&self, column: usize, row: usize) -> (cell: Cell)
        requires
            column < COLS,
            row < ROWS,
        ensures
            cell == self@.columns[column as int][row as int],
    {
        self.cells[column][row]
    }

    /// Moves the floating piece one column, staying on the board.
    pub fn move_floating(&mut self, direction: Direction)
        requires
            old(self).wf(),
        ensures
            final(self).wf(),
            final(self)@ == old(self)@.moved(direction),
    {
        match direction {
            Direction::Left => {
                if self.floating > 0 {
                    self.floating = self.floating - 1;
                }
            },
            Direction::Right => {
                if self.floating < COLS - 1 {
                    self.floating = self.floating + 1;
                }
            },
        }
        assert(self@.columns =~= old(self)@.columns);
    }

    /// Drops the floating piece into its column. Returns whether a piece was
    /// placed; a full column leaves the state as it was.
    pub fn drop(&mut self) -> (placed: bool)
        requires
            old(self).wf(),
        ensures
            final(self).wf(),
            final(self)@ == old(self)@.dropped(),
            placed == old(self)@.can_drop(),
    {
        let column: usize = self.floating;
        let mut row: usize = 0;
        while row < ROWS
            invariant
                row <= ROWS,
                column == self.floating,
                column < COLS,
                *self == *old(self),
                old(self).wf(),
                occupied_below(self@.target(), row as int),
            decreases ROWS - row,
        {
            if self.cells[column][row].is_empty() {
                proof {
                    lemma_lowest_empty_unique(self@.target(), row as int);
                }
                let piece = self.active.cell();
                self.cells[column][row] = piece;
                self.active = self.active.other();
                self.floating = HOME_COLUMN;
                proof {
                    let before = old(self)@;
                    let after = before.dropped();
                    assert(self@.columns[column as int] =~= after.columns[column as int]);
                    assert(self@.columns =~= after.columns);
                    lemma_drop_keeps_valid(before);
                }
                return true;
            }
            row = row + 1;
        }
        false
    }

    /// Acts on one event: a move or a drop; every other event leaves the
    /// board alone.
    pub fn apply(&mut self, event: InputEvent)
        requires
            old(self).wf(),
        ensures
            final(self).wf(),
            final(self)@ == old(self)@.after(event),
    {
        match event {
            InputEvent::MoveLeft => self.move_floating(Direction::Left),
            InputEvent::MoveRight => self.move_floating(Direction::Right),
            InputEvent::Drop => {
                self.drop();
            },
            InputEvent::Quit => {},
            InputEvent::RecolorAccent => {},
        }
    }
}

/// A drop into a valid state gives a valid state: no piece ever floats above
/// an empty cell.
pub proof fn lemma_drop_keeps_valid(board: BoardView)
    requires
        board.valid(),
    ensures
        board.dropped().valid(),
{
    if board.can_drop() {
        let column = board.target();
        lemma_lowest_empty_exists(column);
        let after = board.dropped();
        let filled = after.columns[board.floating];
        assert forall|i: int, j: int|
            0 <= i < j < filled.len() && (#[trigger] filled[i] is Empty) implies (#[trigger] filled[j] is Empty) by {
            assert(column[i] is Empty);
            assert(column[j] is Empty);
        }
    }
}

/// A game starts in a valid state.
pub proof fn lemma_initial_is_valid()
    ensures
        BoardView::initial().valid(),
{
}

/// A drop into a full column changes nothing: not the board, not the player
/// to move, not the floating piece.
pub proof fn lemma_full_column_drop_is_noop(board: BoardView)
    requires
        column_full(board.target()),
    ensures
        board.dropped() == board,
        board.dropped().dropped() == board,
{
}

/// A drop that places a piece passes the turn to the other player, and the
/// next one that does passes it back; a drop into a full column and a move
/// leave the turn where it is.
pub proof fn lemma_turn_alternates(board: BoardView, direction: Direction)
    ensures
        board.can_drop() ==> board.dropped().active == board.active.other(),
        board.can_drop() ==> board.dropped().active != board.active,
        board.can_drop() && board.dropped().can_drop() ==> board.dropped().dropped().active == board.active,
        !board.can_drop() ==> board.dropped().active == board.active,
        board.moved(direction).active == board.active,
{
}

/// A drop that places a piece fills the lowest empty cell of the target
/// column with the active player's piece and changes no other cell.
pub proof fn lemma_drop_places_one_piece(board: BoardView)
    requires
        board.valid(),
        board.can_drop(),
    ensures
        is_lowest_empty(board.target(), lowest_empty(board.target())),
        board.dropped().columns[board.floating][lowest_empty(board.target())] == board.active.cell(),
        forall|c: int, r: int|
            0 <= c < COLS && 0 <= r < ROWS && !(c == board.floating && r == lowest_empty(board.target()))
                ==> #[trigger] board.dropped().columns[c][r] == board.columns[c][r],
{
    lemma_lowest_empty_exists(board.target());
}

/// Whatever events arrive, in whatever order and number, a valid state stays
/// valid: no column ever holds an empty cell below a piece.
pub proof fn lemma_events_keep_valid(board: BoardView, events: Seq<InputEvent>)
    requires
        board.valid(),
    ensures
        board.after_all(events).valid(),
    decreases events.len(),
{
    if events.len() > 0 {
        lemma_events_keep_valid(board, events.drop_last());
        lemma_drop_keeps_valid(board.after_all(events.drop_last()));
    }
}

} // verus!
