//! Integer rectangles in terminal cells and the fitting of a logical grid
//! into an available area.

use vstd::prelude::*;

verus! {

/// An axis-aligned rectangle in terminal character cells.
#[derive(Clone, Copy, Debug, PartialEq, Eq, Structural)]
pub struct ViewportRect {
    pub x: u16,
    pub y: u16,
    pub width: u16,
    pub height: u16,
}

/// A width-over-height ratio as a fraction of integers. A zero numerator or
/// denominator stands for a ratio that nothing can be fitted to.
#[derive(Clone, Copy, Debug, PartialEq, Eq, Structural)]
pub struct Ratio {
    pub num: u32,
    pub den: u32,
}

impl Ratio {
    /// The ratio is a positive number.
    pub open spec fn positive(self) -> bool {
        self.num > 0 && self.den > 0
    }
}

impl ViewportRect {
    /// The first column right of the rectangle.
    pub open spec fn right(self) -> int {
        self.x + self.width
    }

    /// The first row below the rectangle.
    pub open spec fn bottom(self) -> int {
        self.y + self.height
    }

    /// Both far edges are representable coordinates.
    pub open spec fn valid(self) -> bool {
        self.right() <= u16::MAX && self.bottom() <= u16::MAX
    }

    /// The rectangle covers no cell.
    pub open spec fn is_empty(self) -> bool {
        self.width == 0 || self.height == 0
    }

    /// Every cell of `self` is a cell of `outer`.
    pub open spec fn within(self, outer: ViewportRect) -> bool {
        &&& outer.x <= self.x
        &&& outer.y <= self.y
        &&& self.right() <= outer.right()
        &&& self.bottom() <= outer.bottom()
    }

    /// The rectangle of no size at the origin of `self`.
    pub open spec fn collapsed(self) -> ViewportRect {
        ViewportRect { x: self.x, y: self.y, width: 0, height: 0 }
    }

    /// What `new` makes of its arguments: the size cut back so that the far
    /// edges stay representable.
    pub open spec fn spec_new(x: u16, y: u16, width: u16, height: u16) -> ViewportRect {
        ViewportRect {
            x,
            y,
            width: if x + width > u16::MAX { (u16::MAX - x) as u16 } else { width },
            height: if y + height > u16::MAX { (u16::MAX - y) as u16 } else { height },
        }
    }

    /// A rectangle at `(x, y)` of the given size, cut back where a far edge
    /// would pass the largest coordinate.
    pub fn new(x: u16, y: u16, width: u16, height: u16) -> (rect: ViewportRect)
        ensures
            rect == ViewportRect::spec_new(x, y, width, height),
            rect.valid(),
            (ViewportRect { x, y, width, height }).valid() ==> rect == (ViewportRect { x, y, width, height }),
    {
        let room_w: u16 = u16::MAX - x;
        let room_h: u16 = u16::MAX - y;
        ViewportRect {
            x,
            y,
            width: if width > room_w { room_w } else { width },
            height: if height > room_h { room_h } else { height },
        }
    }
}

/// The largest multiple of `unit` that is not above `len`.
pub open spec fn snap(len: int, unit: int) -> int {
    (len / unit) * unit
}

/// The area is wider than the ratio asks for, so its height limits the fit.
pub open spec fn height_limited(width: int, height: int, ratio: Ratio) -> bool {
    width * ratio.den > ratio.num * height
}

/// The width of the largest shape of the given ratio inside `width` by
/// `height`, rounded down to whole cells.
pub open spec fn target_width(width: int, height: int, ratio: Ratio) -> int {
    if height_limited(width, height, ratio) {
        (ratio.num * height) / (ratio.den as int)
    } else {
        width
    }
}

/// The height of the largest shape of the given ratio inside `width` by
/// `height`, rounded down to whole cells.
pub open spec fn target_height(width: int, height: int, ratio: Ratio) -> int {
    if height_limited(width, height, ratio) {
        height
    } else {
        (width * ratio.den) / (ratio.num as int)
    }
}

/// The rectangle that `fit` returns.
pub open spec fn fit_spec(available: ViewportRect, cols: u16, rows: u16, ratio: Ratio) -> ViewportRect {
    let width = snap(target_width(available.width as int, available.height as int, ratio), cols as int);
    let height = snap(target_height(available.width as int, available.height as int, ratio), rows as int);
    if available.is_empty() || !ratio.positive() || width == 0 || height == 0 {
        available.collapsed()
    } else {
        ViewportRect {
            x: (available.x + (available.width - width) / 2) as u16,
            y: (available.y + (available.height - height) / 2) as u16,
            width: width as u16,
            height: height as u16,
        }
    }
}

/// `fitted` sits in the middle of `available`: on each axis the margin
/// before it is the margin after it, or one cell less.
pub open spec fn centered(fitted: ViewportRect, available: ViewportRect) -> bool {
    let left = fitted.x - available.x;
    let right = available.right() - fitted.right();
    let top = fitted.y - available.y;
    let bottom = available.bottom() - fitted.bottom();
    &&& left <= right <= left + 1
    &&& top <= bottom <= top + 1
}

/// A quotient is below a bound whose product with the divisor is above the
/// dividend.
proof fn lemma_quotient_below(a: int, d: int, b: int)
    by (nonlinear_arith)
    requires
        0 <= a,
        0 < d,
        a < b * d,
    ensures
        0 <= a / d < b,
{
}

/// A quotient is at most a bound whose product with the divisor is at least
/// the dividend.
proof fn lemma_quotient_at_most(a: int, d: int, b: int)
    by (nonlinear_arith)
    requires
        0 <= a,
        0 < d,
        a <= b * d,
    ensures
        0 <= a / d <= b,
{
}

/// Snapping gives a multiple of the unit, at most the length and less than
/// one unit below it.
pub proof fn lemma_snap(len: int, unit: int)
    by (nonlinear_arith)
    requires
        0 <= len,
        0 < unit,
    ensures
        0 <= snap(len, unit) <= len,
        len - unit < snap(len, unit),
        snap(len, unit) % unit == 0,
        snap(len, unit) == len - len % unit,
        snap(len, unit) == 0 <==> len < unit,
{
}

/// The product of a 16-bit and a 32-bit number.
proof fn lemma_product_bound(a: int, b: int)
    by (nonlinear_arith)
    requires
        0 <= a <= 0xffff,
        0 <= b <= 0xffff_ffff,
    ensures
        0 <= a * b <= 0xffff * 0xffff_ffff,
        a * b == b * a,
{
}

/// The target size lies inside the available size.
pub proof fn lemma_target_within(width: int, height: int, ratio: Ratio)
    requires
        0 < width,
        0 < height,
        ratio.positive(),
    ensures
        0 <= target_width(width, height, ratio) <= width,
        0 <= target_height(width, height, ratio) <= height,
{
    assert(0 <= ratio.num * height && 0 <= width * ratio.den) by (nonlinear_arith)
        requires
            0 < width,
            0 < height,
            ratio.num > 0,
            ratio.den > 0,
    ;
    if height_limited(width, height, ratio) {
        lemma_quotient_below(ratio.num * height, ratio.den as int, width);
    } else {
        assert(width * ratio.den <= height * ratio.num) by (nonlinear_arith)
            requires
                width * ratio.den <= ratio.num * height,
        ;
        lemma_quotient_at_most(width * ratio.den, ratio.num as int, height);
    }
}

/// What holds of every fitted rectangle: it lies inside the available area,
/// its width is a whole number of columns and its height a whole number of
/// rows, and it either has no size and sits at the area's origin or sits in
/// the middle of the area.
pub proof fn lemma_fit_guarantees(available: ViewportRect, cols: u16, rows: u16, ratio: Ratio)
    requires
        available.valid(),
        cols > 0,
        rows > 0,
    ensures
        fit_spec(available, cols, rows, ratio).valid(),
        fit_spec(available, cols, rows, ratio).within(available),
        fit_spec(available, cols, rows, ratio).width % cols == 0,
        fit_spec(available, cols, rows, ratio).height % rows == 0,
        fit_spec(available, cols, rows, ratio).is_empty() ==> fit_spec(available, cols, rows, ratio)
            == available.collapsed(),
        !fit_spec(available, cols, rows, ratio).is_empty() ==> centered(
            fit_spec(available, cols, rows, ratio),
            available,
        ),
{
    if !available.is_empty() && ratio.positive() {
        let width = available.width as int;
        let height = available.height as int;
        lemma_target_within(width, height, ratio);
        lemma_snap(target_width(width, height, ratio), cols as int);
        lemma_snap(target_height(width, height, ratio), rows as int);
    }
}

/// Fits a grid of `cols` by `rows` equal cells into `available`, keeping the
/// ratio of width to height: the largest such shape, each side rounded
/// down to a whole number of cells per grid unit, placed in the middle. The
/// result has no size where the area is empty or too small for the grid.
pub fn fit(available: ViewportRect, cols: u16, rows: u16, ratio: Ratio) -> (fitted: ViewportRect)
    requires
        available.valid(),
        cols > 0,
        rows > 0,
    ensures
        fitted == fit_spec(available, cols, rows, ratio),
        fitted.valid(),
        fitted.within(available),
        fitted.width % cols == 0,
        fitted.height % rows == 0,
        fitted.is_empty() ==> fitted == available.collapsed(),
        !fitted.is_empty() ==> centered(fitted, available),
{
    if available.width == 0 || available.height == 0 || ratio.num == 0 || ratio.den == 0 {
        return ViewportRect { x: available.x, y: available.y, width: 0, height: 0 };
    }
    let avail_w: u64 = available.width as u64;
    let avail_h: u64 = available.height as u64;
    let num: u64 = ratio.num as u64;
    let den: u64 = ratio.den as u64;
    proof {
        lemma_product_bound(avail_w as int, den as int);
        lemma_product_bound(avail_h as int, num as int);
        lemma_target_within(avail_w as int, avail_h as int, ratio);
    }
    let (raw_w, raw_h): (u64, u64) = if avail_w * den > num * avail_h {
        ((num * avail_h) / den, avail_h)
    } else {
        (avail_w, (avail_w * den) / num)
    };
    assert(raw_w == target_width(avail_w as int, avail_h as int, ratio));
    assert(raw_h == target_height(avail_w as int, avail_h as int, ratio));
    proof {
        lemma_snap(raw_w as int, cols as int);
        lemma_snap(raw_h as int, rows as int);
    }
    let snapped_w: u16 = (raw_w as u16 / cols) * cols;
    let snapped_h: u16 = (raw_h as u16 / rows) * rows;
    if snapped_w == 0 || snapped_h == 0 {
        return ViewportRect { x: available.x, y: available.y, width: 0, height: 0 };
    }
    let x: u16 = available.x + (available.width - snapped_w) / 2;
    let y: u16 = available.y + (available.height - snapped_h) / 2;
    ViewportRect { x, y, width: snapped_w, height: snapped_h }
}

/// Equal arguments give equal rectangles: the fitted rectangle depends on
/// nothing but the four arguments, so fitting again into an area that has
/// not changed gives the rectangle of before.
pub proof fn lemma_fit_deterministic(
    available: ViewportRect,
    cols: u16,
    rows: u16,
    ratio: Ratio,
    available_again: ViewportRect,
    cols_again: u16,
    rows_again: u16,
    ratio_again: Ratio,
)
    requires
        available == available_again,
        cols == cols_again,
        rows == rows_again,
        ratio == ratio_again,
    ensures
        fit_spec(available, cols, rows, ratio) == fit_spec(available_again, cols_again, rows_again, ratio_again),
{
}

/// The ratio of the whole board's width to its height in character cells:
/// seven columns over six rows, divided by 9/50 to make up for a character
/// cell being taller than it is wide.
pub open spec fn spec_board_ratio() -> Ratio {
    Ratio { num: 175, den: 27 }
}

/// The ratio of the whole board's width to its height in character cells.
#[verifier::when_used_as_spec(spec_board_ratio)]
pub fn board_ratio() -> (ratio: Ratio)
    ensures
        ratio == spec_board_ratio(),
        ratio.positive(),
{
    Ratio { num: 175, den: 27 }
}

/// The sum of two coordinates, held at the largest coordinate.
pub open spec fn saturating_sum(a: int, b: int) -> int {
    if a + b > u16::MAX { u16::MAX as int } else { a + b }
}

/// The difference of two lengths, held at zero.
pub open spec fn saturating_difference(a: int, b: int) -> int {
    if a < b { 0 } else { a - b }
}

/// The area left inside a one-cell border drawn around `area`: the origin
/// one cell in, though not past the far edge, and two cells off each side
/// length, down to zero.
pub open spec fn inset(area: ViewportRect) -> ViewportRect {
    let near_x = saturating_sum(area.x as int, 1);
    let far_x = saturating_sum(area.x as int, area.width as int);
    let near_y = saturating_sum(area.y as int, 1);
    let far_y = saturating_sum(area.y as int, area.height as int);
    ViewportRect {
        x: (if near_x < far_x { near_x } else { far_x }) as u16,
        y: (if near_y < far_y { near_y } else { far_y }) as u16,
        width: saturating_difference(saturating_difference(area.width as int, 1), 1) as u16,
        height: saturating_difference(saturating_difference(area.height as int, 1), 1) as u16,
    }
}

/// Calls `Block::inner` of ratatui on the block that `Block::bordered` makes:
/// all four borders, no padding, no title. Trusted, not proved: the result is
/// `inset(area)`. For each border the method takes one cell off the width or
/// the height with a saturating subtraction, and for the left and the top
/// border it moves the origin by a saturating step of one cell, held at the
/// rectangle's own saturating far edge.
#[verifier::external_body]
fn bordered_inner(area: ViewportRect) -> (inner: ViewportRect)
    ensures
        inner == inset(area),
{
    let outer = ratatui::layout::Rect { x: area.x, y: area.y, width: area.width, height: area.height };
    let r = ratatui::widgets::Block::bordered().inner(outer);
    ViewportRect { x: r.x, y: r.y, width: r.width, height: r.height }
}

/// The area inside the border of a frame that fills `area`. A title written
/// on the top border takes no room of its own.
pub fn frame_inner(area: ViewportRect) -> (inner: ViewportRect)
    ensures
        inner == inset(area),
        area.valid() ==> inner.valid() && inner.within(area),
{
    bordered_inner(area)
}

/// Where the board goes in a frame that fills `area`: fitted into what the
/// frame's border leaves, seven columns by six rows.
pub open spec fn board_area_spec(area: ViewportRect) -> ViewportRect {
    fit_spec(inset(area), 7, 6, spec_board_ratio())
}

/// Where the board goes in a frame that fills `area`. It lies inside the
/// frame's border, or has no size where the frame leaves too little room.
pub fn board_area(area: ViewportRect) -> (target: ViewportRect)
    requires
        area.valid(),
    ensures
        target == board_area_spec(area),
        target.valid(),
        target.within(inset(area)),
        target.within(area),
        target.width % 7 == 0,
        target.height % 6 == 0,
        target.is_empty() ==> target == inset(area).collapsed(),
        !target.is_empty() ==> centered(target, inset(area)),
{
    let inner = frame_inner(area);
    fit(inner, 7, 6, board_ratio())
}

} // verus!
