//! The projection of the game state into abstract drawing commands, in a
//! logical coordinate space that does not depend on the terminal's size.

use vstd::prelude::*;
use crate::board::{BoardState, BoardView, COLS, ROWS};
use crate::cell::{Cell, ColorToken, Player};
use crate::viewport::ViewportRect;

verus! {

/// Logical coordinates count in steps of which this many make one cell.
pub const UNIT: u16 = 10;

/// Half a cell: from a cell's corner to its centre.
pub const HALF_UNIT: u16 = 5;

/// The radius of a piece.
pub const CHIP_RADIUS: u16 = 2;

/// The width of the grid in logical coordinates.
pub const GRID_WIDTH: u16 = 70;

/// The height of the grid in logical coordinates.
pub const GRID_HEIGHT: u16 = 60;

/// A shape to draw, in logical coordinates: x from 0 to `GRID_WIDTH` over
/// the columns, y from 0 to `GRID_HEIGHT` over the rows, row 0 at the bottom.
#[derive(Clone, Copy, Debug, PartialEq, Eq, Structural)]
pub enum DrawCommand {
    Rectangle { x: u16, y: u16, width: u16, height: u16, color: ColorToken },
    Line { x1: u16, y1: u16, x2: u16, y2: u16, color: ColorToken },
    Circle { x: u16, y: u16, radius: u16, color: ColorToken },
}

/// The rectangle behind the whole grid.
pub open spec fn background() -> DrawCommand {
    DrawCommand::Rectangle { x: 0, y: 0, width: GRID_WIDTH, height: GRID_HEIGHT, color: ColorToken::Background }
}

/// The grid line at the left edge of column `column`.
pub open spec fn vertical_line(column: int) -> DrawCommand {
    DrawCommand::Line {
        x1: (column * UNIT) as u16,
        y1: 0,
        x2: (column * UNIT) as u16,
        y2: GRID_HEIGHT,
        color: ColorToken::Accent,
    }
}

/// The grid line at the lower edge of row `row`.
pub open spec fn horizontal_line(row: int) -> DrawCommand {
    DrawCommand::Line {
        x1: 0,
        y1: (row * UNIT) as u16,
        x2: GRID_WIDTH,
        y2: (row * UNIT) as u16,
        color: ColorToken::Accent,
    }
}

/// The lines of the grid: those between and around the columns from left
/// to right, then those between and around the rows from the bottom up.
pub open spec fn grid_lines() -> Seq<DrawCommand> {
    Seq::new((COLS + 1) as nat, |c: int| vertical_line(c)) + Seq::new((ROWS + 1) as nat, |r: int| horizontal_line(r))
}

/// A piece of `player` centred in the cell of column `column` and row `row`.
pub open spec fn chip(column: int, row: int, player: Player) -> DrawCommand {
    DrawCommand::Circle {
        x: (column * UNIT + HALF_UNIT) as u16,
        y: (row * UNIT + HALF_UNIT) as u16,
        radius: CHIP_RADIUS,
        color: player.token(),
    }
}

/// The slots of the board as pairs of column and row: column by column,
/// each from the bottom up.
pub open spec fn slots() -> Seq<(int, int)> {
    Seq::new((COLS * ROWS) as nat, |k: int| (k / (ROWS as int), k % (ROWS as int)))
}

/// The piece to draw for a slot of `columns`, if it holds one.
pub open spec fn chip_in(columns: Seq<Seq<Cell>>) -> spec_fn((int, int)) -> Option<DrawCommand> {
    |slot: (int, int)|
        match columns[slot.0][slot.1].owner() {
            Some(player) => Some(chip(slot.0, slot.1, player)),
            None => None,
        }
}

/// One circle for each occupied cell, in the order of `slots`.
pub open spec fn placed_chips(columns: Seq<Seq<Cell>>) -> Seq<DrawCommand> {
    slots().filter_map(chip_in(columns))
}

/// The floating piece: above the grid, over the column it aims at, in the
/// colour of the player to move.
pub open spec fn floating_chip(board: BoardView) -> DrawCommand {
    chip(board.floating, ROWS as int, board.active)
}

/// The picture of a state: the background, the grid lines, the pieces on
/// the board and the floating piece, in this order.
pub open spec fn projection(board: BoardView) -> Seq<DrawCommand> {
    seq![background()] + grid_lines() + placed_chips(board.columns) + seq![floating_chip(board)]
}

/// The picture of `board`. The commands are in logical coordinates, which
/// the renderer maps onto the target rectangle; they are the same for every
/// target.
pub fn project(board: &BoardState, _target: ViewportRect) -> (commands: Vec<DrawCommand>)
    requires
        board.wf(),
    ensures
        commands@ == projection(board@),
{
    let mut commands: Vec<DrawCommand> = Vec::new();
    commands.push(
        DrawCommand::Rectangle { x: 0, y: 0, width: GRID_WIDTH, height: GRID_HEIGHT, color: ColorToken::Background },
    );
    let ghost head = commands@;

    let mut column: usize = 0;
    while column <= COLS
        invariant
            column <= COLS + 1,
            commands@ == head + Seq::new(column as nat, |c: int| vertical_line(c)),
        decreases COLS + 1 - column,
    {
        let x: u16 = column as u16 * UNIT;
        commands.push(DrawCommand::Line { x1: x, y1: 0, x2: x, y2: GRID_HEIGHT, color: ColorToken::Accent });
        column = column + 1;
    }
    let ghost verticals = commands@;

    let mut row: usize = 0;
    while row <= ROWS
        invariant
            row <= ROWS + 1,
            commands@ == verticals + Seq::new(row as nat, |r: int| horizontal_line(r)),
        decreases ROWS + 1 - row,
    {
        let y: u16 = row as u16 * UNIT;
        commands.push(DrawCommand::Line { x1: 0, y1: y, x2: GRID_WIDTH, y2: y, color: ColorToken::Accent });
        row = row + 1;
    }
    let ghost lines = commands@;
    assert(lines == seq![background()] + grid_lines());

    let ghost pick = chip_in(board@.columns);
    let mut column: usize = 0;
    while column < COLS
        invariant
            column <= COLS,
            pick == chip_in(board@.columns),
            commands@ == lines + slots().take(column * ROWS).filter_map(pick),
        decreases COLS - column,
    {
        let mut row: usize = 0;
        while row < ROWS
            invariant
                column < COLS,
                row <= ROWS,
                pick == chip_in(board@.columns),
                commands@ == lines + slots().take(column * ROWS + row).filter_map(pick),
            decreases ROWS - row,
        {
            proof {
                slots().lemma_filter_map_take_succ(pick, column * ROWS + row);
            }
            match board.cell(column, row).owner() {
                Some(player) => {
                    commands.push(
                        DrawCommand::Circle {
                            x: column as u16 * UNIT + HALF_UNIT,
                            y: row as u16 * UNIT + HALF_UNIT,
                            radius: CHIP_RADIUS,
                            color: player.token(),
                        },
                    );
                },
                None => {},
            }
            row = row + 1;
        }
        column = column + 1;
    }
    assert(slots().take((COLS * ROWS) as int) == slots());

    let floating: usize = board.floating_column();
    commands.push(
        DrawCommand::Circle {
            x: floating as u16 * UNIT + HALF_UNIT,
            y: GRID_HEIGHT + HALF_UNIT,
            radius: CHIP_RADIUS,
            color: board.color_for_turn().token(),
        },
    );
    commands
}

} // verus!
