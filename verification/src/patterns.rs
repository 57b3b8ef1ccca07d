//! Two classic patterns and what the rule makes of them, shown for every
//! board that holds the pattern and nothing else.

use vstd::prelude::*;

use crate::cell::CellState;
use crate::grid::{
    grid_height, grid_width, is_grid, lemma_dimensions_are_kept, next_generation, state_at,
};

verus! {

/// The live cells of `cells` are exactly the positions of the board at which
/// `pattern` holds.
pub open spec fn alive_exactly_where(
    cells: Seq<Seq<CellState>>,
    pattern: spec_fn(int, int) -> bool,
) -> bool {
    forall|x: int, y: int|
        0 <= y < cells.len() && 0 <= x < cells[y].len() ==> ((#[trigger] cells[y][x])
            == CellState::Alive <==> pattern(x, y))
}

/// The square of two by two cells whose corner with the smallest
/// coordinates is `(left, top)`.
pub open spec fn block(left: int, top: int) -> spec_fn(int, int) -> bool {
    |x: int, y: int| left <= x <= left + 1 && top <= y <= top + 1
}

/// The row of three cells around `(centre_x, centre_y)`.
pub open spec fn horizontal_blinker(centre_x: int, centre_y: int) -> spec_fn(int, int) -> bool {
    |x: int, y: int| y == centre_y && centre_x - 1 <= x <= centre_x + 1
}

/// The column of three cells around `(centre_x, centre_y)`.
pub open spec fn vertical_blinker(centre_x: int, centre_y: int) -> spec_fn(int, int) -> bool {
    |x: int, y: int| x == centre_x && centre_y - 1 <= y <= centre_y + 1
}

/// The block is a still life: a board whose only live cells are a square of
/// two by two is its own next generation.
pub proof fn lemma_block_is_still(cells: Seq<Seq<CellState>>, left: int, top: int)
    requires
        is_grid(cells),
        0 <= left,
        left + 1 < grid_width(cells),
        0 <= top,
        top + 1 < grid_height(cells),
        alive_exactly_where(cells, block(left, top)),
    ensures
        next_generation(cells) == cells,
{
    let next = next_generation(cells);
    assert forall|x: int, y: int| 0 <= y < cells.len() && 0 <= x < cells[y].len() implies (
    #[trigger] next[y][x]) == cells[y][x] by {
    }
    assert(next =~~= cells);
}

/// A row of three live cells, none of them on the border of the board and
/// no other cell alive, is a column of three around the same centre one
/// generation later.
pub proof fn lemma_blinker_turns_upright(cells: Seq<Seq<CellState>>, centre_x: int, centre_y: int)
    requires
        is_grid(cells),
        1 <= centre_x,
        centre_x + 1 < grid_width(cells),
        1 <= centre_y,
        centre_y + 1 < grid_height(cells),
        alive_exactly_where(cells, horizontal_blinker(centre_x, centre_y)),
    ensures
        alive_exactly_where(next_generation(cells), vertical_blinker(centre_x, centre_y)),
{
    let next = next_generation(cells);
    assert forall|x: int, y: int| 0 <= y < next.len() && 0 <= x < next[y].len() implies ((
    #[trigger] next[y][x]) == CellState::Alive <==> vertical_blinker(centre_x, centre_y)(x, y)) by {
        lemma_neighbours_follow_pattern(cells, horizontal_blinker(centre_x, centre_y), x, y);
    }
}

/// A column of three live cells, none of them on the border of the board and
/// no other cell alive, is a row of three around the same centre one
/// generation later.
pub proof fn lemma_blinker_lies_down(cells: Seq<Seq<CellState>>, centre_x: int, centre_y: int)
    requires
        is_grid(cells),
        1 <= centre_x,
        centre_x + 1 < grid_width(cells),
        1 <= centre_y,
        centre_y + 1 < grid_height(cells),
        alive_exactly_where(cells, vertical_blinker(centre_x, centre_y)),
    ensures
        alive_exactly_where(next_generation(cells), horizontal_blinker(centre_x, centre_y)),
{
    let next = next_generation(cells);
    assert forall|x: int, y: int| 0 <= y < next.len() && 0 <= x < next[y].len() implies ((
    #[trigger] next[y][x]) == CellState::Alive <==> horizontal_blinker(centre_x, centre_y)(x, y)) by {
        lemma_neighbours_follow_pattern(cells, vertical_blinker(centre_x, centre_y), x, y);
    }
}

/// The blinker oscillates with period two: a board whose only live cells are
/// a row of three, none of them on the border, shows them as a column after
/// one generation and is the same board again after two.
pub proof fn lemma_blinker_oscillates(cells: Seq<Seq<CellState>>, centre_x: int, centre_y: int)
    requires
        is_grid(cells),
        1 <= centre_x,
        centre_x + 1 < grid_width(cells),
        1 <= centre_y,
        centre_y + 1 < grid_height(cells),
        alive_exactly_where(cells, horizontal_blinker(centre_x, centre_y)),
    ensures
        alive_exactly_where(next_generation(cells), vertical_blinker(centre_x, centre_y)),
        next_generation(cells) != cells,
        next_generation(next_generation(cells)) == cells,
{
    let next = next_generation(cells);
    let after = next_generation(next);
    lemma_blinker_turns_upright(cells, centre_x, centre_y);
    lemma_dimensions_are_kept(cells);
    lemma_blinker_lies_down(next, centre_x, centre_y);
    lemma_same_pattern_same_board(cells, after, horizontal_blinker(centre_x, centre_y));
    assert(next[centre_y - 1][centre_x] == CellState::Alive);
    assert(cells[centre_y - 1][centre_x] != CellState::Alive);
}

/// Two boards of the same dimensions whose live cells are those of the same
/// pattern are the same board.
proof fn lemma_same_pattern_same_board(
    first: Seq<Seq<CellState>>,
    second: Seq<Seq<CellState>>,
    pattern: spec_fn(int, int) -> bool,
)
    requires
        is_grid(first),
        is_grid(second),
        grid_width(first) == grid_width(second),
        grid_height(first) == grid_height(second),
        alive_exactly_where(first, pattern),
        alive_exactly_where(second, pattern),
    ensures
        first == second,
{
    assert forall|y: int| 0 <= y < first.len() implies #[trigger] first[y] =~= second[y] by {
        assert(first[y].len() == first[0].len());
        assert(second[y].len() == second[0].len());
        assert forall|x: int| 0 <= x < first[y].len() implies first[y][x] == second[y][x] by {
            assert(first[y][x] == CellState::Alive <==> pattern(x, y));
            assert(second[y][x] == CellState::Alive <==> pattern(x, y));
        }
    }
    assert(first =~= second);
}

/// On a board whose live cells are those of `pattern`, a position on the
/// board or next to it holds a live cell just where it lies on the board and
/// in the pattern.
proof fn lemma_neighbours_follow_pattern(
    cells: Seq<Seq<CellState>>,
    pattern: spec_fn(int, int) -> bool,
    x: int,
    y: int,
)
    requires
        is_grid(cells),
        alive_exactly_where(cells, pattern),
    ensures
        forall|dx: int, dy: int|
            -1 <= dx <= 1 && -1 <= dy <= 1 ==> ((#[trigger] state_at(cells, x + dx, y + dy))
                == CellState::Alive <==> 0 <= y + dy < grid_height(cells) && 0 <= x + dx
                < grid_width(cells) && pattern(x + dx, y + dy)),
{
    assert forall|dx: int, dy: int| -1 <= dx <= 1 && -1 <= dy <= 1 implies ((
    #[trigger] state_at(cells, x + dx, y + dy)) == CellState::Alive <==> 0 <= y + dy
        < grid_height(cells) && 0 <= x + dx < grid_width(cells) && pattern(x + dx, y + dy)) by {
        if 0 <= y + dy < cells.len() {
            assert(cells[y + dy].len() == cells[0].len());
            if 0 <= x + dx < cells[0].len() {
                assert(cells[y + dy][x + dx] == CellState::Alive <==> pattern(x + dx, y + dy));
            }
        }
    }
}

} // verus!
