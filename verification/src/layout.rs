//! The geometry of the prompt screen: where the prompt sits, how it is cut
//! into the result list and the search field, and where the text cursor is.
use ratatui::layout::{Constraint, Direction, Layout, Rect};
use vstd::prelude::*;

use crate::input::Input;

verus! {

/// A rectangle of terminal cells: its top left corner and its size.
#[derive(Clone, Copy, Debug, PartialEq, Eq, Structural)]
pub struct Area {
    pub x: u16,
    pub y: u16,
    pub width: u16,
    pub height: u16,
}

/// The axis along which an area is cut.
#[derive(Clone, Copy, Debug, PartialEq, Eq, Structural)]
pub enum Axis {
    Horizontal,
    Vertical,
}

/// How large one part of a cut should be.
#[derive(Clone, Copy, Debug, PartialEq, Eq, Structural)]
pub enum Size {
    Min(u16),
    Length(u16),
    Percentage(u16),
}

/// `part` lies within `area` along `axis` and spans the whole of `area`
/// across it.
pub open spec fn lies_within(axis: Axis, part: Area, area: Area) -> bool {
    match axis {
        Axis::Horizontal => {
            &&& area.x <= part.x
            &&& part.x + part.width <= area.x + area.width
            &&& part.y == area.y
            &&& part.height == area.height
        },
        Axis::Vertical => {
            &&& area.y <= part.y
            &&& part.y + part.height <= area.y + area.height
            &&& part.x == area.x
            &&& part.width == area.width
        },
    }
}

/// Where `area` starts along `axis`.
pub open spec fn axis_start(axis: Axis, area: Area) -> int {
    match axis {
        Axis::Horizontal => area.x as int,
        Axis::Vertical => area.y as int,
    }
}

/// How many cells `area` spans along `axis`, counting only cells whose
/// coordinate fits in a `u16`.
pub open spec fn axis_len(axis: Axis, area: Area) -> int {
    let (start, len) = match axis {
        Axis::Horizontal => (area.x as int, area.width as int),
        Axis::Vertical => (area.y as int, area.height as int),
    };
    if start + len <= u16::MAX {
        len
    } else {
        u16::MAX - start
    }
}

/// Where `part` starts along `axis`.
pub open spec fn part_start(axis: Axis, part: Area) -> int {
    axis_start(axis, part)
}

/// How many cells `part` spans along `axis`.
pub open spec fn part_len(axis: Axis, part: Area) -> int {
    match axis {
        Axis::Horizontal => part.width as int,
        Axis::Vertical => part.height as int,
    }
}

/// The percentage a size asks for, zero for any other kind of size.
pub open spec fn percentage_of(size: Size) -> int {
    match size {
        Size::Percentage(p) => p as int,
        _ => 0,
    }
}

/// Every size is a percentage.
pub open spec fn all_percentages(sizes: Seq<Size>) -> bool {
    forall|i: int| 0 <= i < sizes.len() ==> #[trigger] sizes[i] is Percentage
}

/// The sum of the percentages of the first `n` sizes.
pub open spec fn percent_before(sizes: Seq<Size>, n: int) -> int
    decreases n,
{
    if n <= 0 {
        0
    } else {
        percent_before(sizes, n - 1) + percentage_of(sizes[n - 1])
    }
}

/// `percent` percent of `len` cells, rounded to the nearest cell, halves up.
pub open spec fn share(len: int, percent: int) -> int {
    (len * percent + 50) / 100
}

/// `parts` are one part per entry of `sizes`, each within `area` along `axis`;
/// where the sizes are all percentages that add up to at most a hundred, part
/// `i` starts at the rounded share of the percentages before it and ends at
/// the rounded share of those up to and including its own; and where the
/// sizes are a minimum of zero followed by a length, the length takes what it
/// asks for of the end of the area, or the whole area if that is shorter, and
/// the first part takes the rest.
pub open spec fn cut_of(axis: Axis, sizes: Seq<Size>, area: Area, parts: Seq<Area>) -> bool {
    let start = axis_start(axis, area);
    let len = axis_len(axis, area);
    &&& parts.len() == sizes.len()
    &&& forall|i: int| 0 <= i < parts.len() ==> #[trigger] lies_within(axis, parts[i], area)
    &&& (all_percentages(sizes) && percent_before(sizes, sizes.len() as int) <= 100) ==> forall|
        i: int,
    |
        0 <= i < parts.len() ==> {
            &&& #[trigger] part_start(axis, parts[i]) == start + share(
                len,
                percent_before(sizes, i),
            )
            &&& part_len(axis, parts[i]) == share(len, percent_before(sizes, i + 1)) - share(
                len,
                percent_before(sizes, i),
            )
        }
    &&& (sizes.len() == 2 && sizes[0] == Size::Min(0) && sizes[1] is Length) ==> {
        let wanted = sizes[1]->Length_0 as int;
        let taken = if wanted <= len {
            wanted
        } else {
            len
        };
        &&& part_start(axis, parts[0]) == start
        &&& part_len(axis, parts[0]) == len - taken
        &&& part_start(axis, parts[1]) == start + len - taken
        &&& part_len(axis, parts[1]) == taken
    }
}

/// Cuts `area` along `axis` into one part for each entry of `sizes`.
///
/// Calls `Layout::split` of the terminal UI library on a layout with the
/// given direction and constraints and the default margin, flex (parts
/// packed from the start) and spacing. The library hands the constraints to
/// a solver whose choice, where several solutions are optimal, follows the
/// iteration order of hash maps seeded per process; so the contract claims
/// only what every outcome shares. The required constraints give one part
/// per constraint, each starting and ending within the area along the cut
/// and spanning it across. Where the sizes are all percentages adding up to
/// at most a hundred, or a minimum of zero followed by a length, the stronger
/// constraints (empty spacers between parts, then lengths and percentages,
/// then a minimum growing to fill) can all be met together and fix every
/// position, so the optimum is unique and the contract states it, rounded as
/// the library rounds. For other sizes it leaves positions and sizes unsaid.
/// The solver's own failure, which the library turns into a panic, is not
/// excluded here: every required constraint it is given can be met.
#[verifier::external_body]
fn split(axis: Axis, sizes: &Vec<Size>, area: Area) -> (parts: Vec<Area>)
    ensures
        cut_of(axis, sizes@, area, parts@),
{
    let direction = match axis {
        Axis::Horizontal => Direction::Horizontal,
        Axis::Vertical => Direction::Vertical,
    };
    let constraints = sizes.iter().map(|s| match *s {
        Size::Min(v) => Constraint::Min(v),
        Size::Length(v) => Constraint::Length(v),
        Size::Percentage(v) => Constraint::Percentage(v),
    });
    let rect = Rect { x: area.x, y: area.y, width: area.width, height: area.height };
    let rects = Layout::default().direction(direction).constraints(constraints).split(rect);
    rects.iter().map(|r| Area { x: r.x, y: r.y, width: r.width, height: r.height }).collect()
}

/// `inner` lies within `outer` on both axes.
pub open spec fn inside(inner: Area, outer: Area) -> bool {
    &&& outer.x <= inner.x
    &&& inner.x + inner.width <= outer.x + outer.width
    &&& outer.y <= inner.y
    &&& inner.y + inner.height <= outer.y + outer.height
}

/// The three sizes that put a part of `percent` percent in the middle, with
/// equal margins on both sides.
pub open spec fn centered_sizes(percent: u16) -> Seq<Size> {
    let margin = ((100 - percent) / 2) as u16;
    seq![Size::Percentage(margin), Size::Percentage(percent), Size::Percentage(margin)]
}

/// The three sizes of a centred cut, as a vector.
fn centered_size_vec(percent: u16) -> (sizes: Vec<Size>)
    requires
        percent <= 100,
    ensures
        sizes@ == centered_sizes(percent),
{
    let margin = (100 - percent) / 2;
    let sizes = vec![Size::Percentage(margin), Size::Percentage(percent), Size::Percentage(margin)];
    assert(sizes@ =~= centered_sizes(percent));
    sizes
}

/// The margin on each side of a centred part of `percent` percent.
pub open spec fn centered_margin(percent: u16) -> int {
    (100 - percent) / 2
}

/// Where along `axis` the centred part of `percent` percent of `r` starts
/// and how many cells it spans: it starts after the rounded share of the
/// margin and ends at the rounded share of the margin and the part together.
pub open spec fn centered_span(axis: Axis, percent: u16, r: Area) -> (int, int) {
    let len = axis_len(axis, r);
    let m = centered_margin(percent);
    (axis_start(axis, r) + share(len, m), share(len, m + percent) - share(len, m))
}

/// The part of `r` centred in it that spans `percent_x` percent of its width
/// and `percent_y` percent of its height: the middle row of a vertical cut
/// into margin, `percent_y` percent and margin, then the middle column of a
/// horizontal cut of that row into margin, `percent_x` percent and margin.
/// Its size is within one cell of the asked percentage, and for an even
/// percentage the margins on both sides differ by at most one cell.
pub fn centered_rect(percent_x: u16, percent_y: u16, r: Area) -> (area: Area)
    requires
        percent_x <= 100,
        percent_y <= 100,
    ensures
        (area.x as int, area.width as int) == centered_span(Axis::Horizontal, percent_x, r),
        (area.y as int, area.height as int) == centered_span(Axis::Vertical, percent_y, r),
        inside(area, r),
        -100 < 100 * area.width - axis_len(Axis::Horizontal, r) * percent_x < 100,
        -100 < 100 * area.height - axis_len(Axis::Vertical, r) * percent_y < 100,
        percent_x % 2 == 0 ==> {
            let left = area.x - r.x;
            let right = r.x + axis_len(Axis::Horizontal, r) - (area.x + area.width);
            -1 <= left - right <= 1
        },
        percent_y % 2 == 0 ==> {
            let top = area.y - r.y;
            let bottom = r.y + axis_len(Axis::Vertical, r) - (area.y + area.height);
            -1 <= top - bottom <= 1
        },
{
    let rows = split(Axis::Vertical, &centered_size_vec(percent_y), r);
    let row = rows[1];
    proof {
        reveal_with_fuel(percent_before, 4);
        assert(lies_within(Axis::Vertical, rows@[1], r));
        assert(all_percentages(centered_sizes(percent_y)));
        assert(part_start(Axis::Vertical, rows@[1]) == r.y + share(
            axis_len(Axis::Vertical, r),
            percent_before(centered_sizes(percent_y), 1),
        ));
    }
    let columns = split(Axis::Horizontal, &centered_size_vec(percent_x), row);
    proof {
        reveal_with_fuel(percent_before, 4);
        assert(lies_within(Axis::Horizontal, columns@[1], row));
        assert(all_percentages(centered_sizes(percent_x)));
        assert(part_start(Axis::Horizontal, columns@[1]) == row.x + share(
            axis_len(Axis::Horizontal, row),
            percent_before(centered_sizes(percent_x), 1),
        ));
        lemma_centered_share(axis_len(Axis::Horizontal, r), percent_x);
        lemma_centered_share(axis_len(Axis::Vertical, r), percent_y);
    }
    columns[1]
}

/// The rounded centred share of `len` cells is within one cell of
/// `percent` percent, and for an even percentage the margins left on both
/// sides differ by at most one cell.
proof fn lemma_centered_share(len: int, percent: u16)
    requires
        0 <= len,
        percent <= 100,
    ensures
        ({
            let m = centered_margin(percent);
            let w = share(len, m + percent) - share(len, m);
            &&& -100 < 100 * w - len * percent < 100
            &&& percent % 2 == 0 ==> -1 <= share(len, m) - (len - share(len, m + percent)) <= 1
            &&& 0 <= share(len, m) <= share(len, m + percent) <= len
        }),
{
    let m = centered_margin(percent);
    assert(len * (m + percent) == len * m + len * percent) by (nonlinear_arith);
    assert(0 <= len * m) by (nonlinear_arith)
        requires
            0 <= len,
            0 <= m,
    ;
    assert(0 <= len * percent) by (nonlinear_arith)
        requires
            0 <= len,
            0 <= percent,
    ;
    assert(len * (m + percent) <= len * 100) by (nonlinear_arith)
        requires
            0 <= len,
            m + percent <= 100,
    ;
    if percent % 2 == 0 {
        assert(m + percent == 100 - m);
        assert(len * (100 - m) == 100 * len - len * m) by (nonlinear_arith);
    }
}

/// The sizes of the prompt: the result list takes what is left above a
/// search field three rows high.
pub open spec fn prompt_sizes() -> Seq<Size> {
    seq![Size::Min(0), Size::Length(3)]
}

/// The result list and the search field that the prompt area is cut into.
pub fn prompt_chunks(prompt_area: Area) -> (chunks: (Area, Area))
    ensures
        lies_within(Axis::Vertical, chunks.0, prompt_area),
        lies_within(Axis::Vertical, chunks.1, prompt_area),
        ({
            let len = axis_len(Axis::Vertical, prompt_area);
            let field = if len >= 3 {
                3
            } else {
                len
            };
            &&& chunks.0.y == prompt_area.y
            &&& chunks.0.height == len - field
            &&& chunks.1.y == prompt_area.y + len - field
            &&& chunks.1.height == field
        }),
{
    let sizes = vec![Size::Min(0), Size::Length(3)];
    assert(sizes@ =~= prompt_sizes());
    let parts = split(Axis::Vertical, &sizes, prompt_area);
    assert(lies_within(Axis::Vertical, parts@[0], prompt_area));
    assert(lies_within(Axis::Vertical, parts@[1], prompt_area));
    (parts[0], parts[1])
}

/// The cell of the text cursor in the search field `field`: inside its
/// border, `character_index` cells from its left edge.
pub fn prompt_cursor(field: Area, character_index: usize) -> (cell: (u16, u16))
    requires
        field.x + 1 + (character_index as u16) <= u16::MAX,
        field.y + 1 <= u16::MAX,
    ensures
        cell.0 == field.x + 1 + (character_index as u16),
        cell.1 == field.y + 1,
{
    (field.x + 1 + character_index as u16, field.y + 1)
}

/// The search field shows a hint while nothing is typed.
pub open spec fn shows_hint(input: Input) -> bool {
    input.user_input@.len() == 0
}

/// Whether the search field shows the hint and hides the cursor.
pub fn shows_search_hint(input: &Input) -> (hint: bool)
    ensures
        hint == shows_hint(*input),
{
    input.user_input.as_str().is_empty()
}

} // verus!
