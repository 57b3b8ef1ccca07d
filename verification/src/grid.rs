//! The board: a bounded rectangle of cells and its evolution from one
//! generation to the next.
//!
//! The board does not wrap around. A position outside it holds no cell and
//! counts as dead wherever a neighbour is looked up.

use vstd::arithmetic::div_mod::lemma_fundamental_div_mod_converse;
use vstd::prelude::*;

use crate::cell::{next_state, Cell, CellState};
use crate::error::InvalidConfiguration;
use crate::random::{draw_seeded, seeded_draws};

verus! {

/// A position of the board: column `x` of row `y`.
#[derive(Clone, Copy, Debug, PartialEq, Eq, Hash, Structural)]
pub struct Position {
    pub x: usize,
    pub y: usize,
}

/// `cells` describes a board: at least one row, at least one column, and
/// every row as long as the first. Rows are indexed by `y`, the cells of a
/// row by `x`.
pub open spec fn is_grid(cells: Seq<Seq<CellState>>) -> bool {
    &&& cells.len() > 0
    &&& cells[0].len() > 0
    &&& forall|y: int| 0 <= y < cells.len() ==> (#[trigger] cells[y]).len() == cells[0].len()
}

/// Number of columns of a board.
pub open spec fn grid_width(cells: Seq<Seq<CellState>>) -> nat {
    if cells.len() > 0 {
        cells[0].len()
    } else {
        0
    }
}

/// Number of rows of a board.
pub open spec fn grid_height(cells: Seq<Seq<CellState>>) -> nat {
    cells.len()
}

/// The state found at `(x, y)`. A position that lies outside the board is
/// absent, and an absent cell is dead.
pub open spec fn state_at(cells: Seq<Seq<CellState>>, x: int, y: int) -> CellState {
    if 0 <= y < cells.len() && 0 <= x < cells[y].len() {
        cells[y][x]
    } else {
        CellState::Dead
    }
}

/// How many of the eight positions around `(x, y)` hold a live cell.
pub open spec fn alive_neighbours(cells: Seq<Seq<CellState>>, x: int, y: int) -> int {
    state_at(cells, x - 1, y - 1).population() + state_at(cells, x, y - 1).population()
        + state_at(cells, x + 1, y - 1).population() + state_at(cells, x - 1, y).population()
        + state_at(cells, x + 1, y).population() + state_at(cells, x - 1, y + 1).population()
        + state_at(cells, x, y + 1).population() + state_at(cells, x + 1, y + 1).population()
}

/// The generation that follows `cells`: every cell takes the state that the
/// rule gives it for its neighbours in `cells` itself.
pub open spec fn next_generation(cells: Seq<Seq<CellState>>) -> Seq<Seq<CellState>> {
    Seq::new(
        cells.len(),
        |y: int|
            Seq::new(
                cells[y].len(),
                |x: int| next_state(cells[y][x], alive_neighbours(cells, x, y)),
            ),
    )
}

/// A board of `width` by `height` cells, all of them in state `state`.
pub open spec fn uniform_grid(width: nat, height: nat, state: CellState) -> Seq<Seq<CellState>> {
    Seq::new(height, |y: int| Seq::new(width, |x: int| state))
}

/// The state of a cell whose draw came out as `alive` says.
pub open spec fn drawn_state(alive: bool) -> CellState {
    if alive {
        CellState::Alive
    } else {
        CellState::Dead
    }
}

/// The board of `width` by `height` cells that `draws` populates: the cell
/// at `(x, y)` takes the draw at `x * height + y`, so that the draws fill
/// the board column by column and each column from its first row down.
pub open spec fn drawn_board(width: nat, height: nat, draws: Seq<bool>) -> Seq<Seq<CellState>> {
    Seq::new(height, |y: int| Seq::new(width, |x: int| drawn_state(draws[x * height + y])))
}

/// The cells of a board with their positions, row after row and each row
/// from its first column to its last.
pub open spec fn enumerated(cells: Seq<Seq<CellState>>) -> Seq<(Position, CellState)> {
    let width = grid_width(cells) as int;
    Seq::new(
        (width * grid_height(cells)) as nat,
        |k: int|
            (Position { x: (k % width) as usize, y: (k / width) as usize }, cells[k / width][k
                % width]),
    )
}

/// No cell of `cells` is alive.
pub open spec fn all_dead(cells: Seq<Seq<CellState>>) -> bool {
    forall|x: int, y: int|
        0 <= y < cells.len() && 0 <= x < cells[y].len() ==> #[trigger] cells[y][x]
            == CellState::Dead
}

/// A generation has the dimensions of the one before it.
pub proof fn lemma_dimensions_are_kept(cells: Seq<Seq<CellState>>)
    requires
        is_grid(cells),
    ensures
        is_grid(next_generation(cells)),
        grid_width(next_generation(cells)) == grid_width(cells),
        grid_height(next_generation(cells)) == grid_height(cells),
{
}

/// The next generation depends on the cells alone: two boards that hold the
/// same cells have the same next generation, and so has one board whenever
/// it is asked.
pub proof fn lemma_next_generation_is_determined(first: Grid, second: Grid)
    requires
        first@ == second@,
    ensures
        next_generation(first@) == next_generation(second@),
{
}

/// Every cell of a board has a draw among those that populate it: the place
/// `x * height + y` of the cell at `(x, y)` lies among the `width * height`
/// draws.
pub proof fn lemma_every_cell_has_its_draw(width: int, height: int, x: int, y: int)
    requires
        0 <= x < width,
        0 <= y < height,
    ensures
        0 <= x * height <= x * height + y < width * height,
{
    assert(0 <= x * height && x * height + height <= width * height) by (nonlinear_arith)
        requires
            0 <= x < width,
            0 < height,
    ;
}

/// No draw serves two cells: two cells of a board that take the same draw
/// are the same cell.
pub proof fn lemma_every_draw_has_one_cell(
    height: int,
    first_x: int,
    first_y: int,
    second_x: int,
    second_y: int,
)
    requires
        0 <= first_y < height,
        0 <= second_y < height,
        first_x * height + first_y == second_x * height + second_y,
    ensures
        first_x == second_x,
        first_y == second_y,
{
    assert(first_x == second_x) by (nonlinear_arith)
        requires
            0 <= first_y < height,
            0 <= second_y < height,
            first_x * height + first_y == second_x * height + second_y,
    ;
}

/// Every draw serves a cell: each place among the `width * height` draws is
/// the place of a cell of the board.
pub proof fn lemma_every_draw_has_its_cell(width: int, height: int, place: int)
    requires
        0 < height,
        0 <= place < width * height,
    ensures
        0 <= place / height < width,
        0 <= place % height < height,
        (place / height) * height + place % height == place,
{
    assert(0 <= place / height < width && 0 <= place % height < height && (place / height)
        * height + place % height == place) by (nonlinear_arith)
        requires
            0 < height,
            0 <= place < width * height,
    ;
}

/// Nothing is born on an empty board: where no cell is alive, the next
/// generation is the same empty board.
pub proof fn lemma_empty_board_stays_empty(cells: Seq<Seq<CellState>>)
    requires
        all_dead(cells),
    ensures
        next_generation(cells) == cells,
        all_dead(next_generation(cells)),
{
    assert forall|x: int, y: int| 0 <= y < cells.len() && 0 <= x < cells[y].len() implies (
    #[trigger] next_generation(cells)[y][x]) == CellState::Dead by {
        assert(cells[y][x] == CellState::Dead);
        assert(alive_neighbours(cells, x, y) == 0);
    }
    assert(next_generation(cells) =~~= cells);
}

/// Every cell of the next generation is what the rule makes of the cell
/// before it and of the live cells among its eight neighbours. A dead cell
/// with exactly three live neighbours is born and no other dead cell is; a
/// live cell with two or three live neighbours survives and every other
/// live cell dies.
pub proof fn lemma_cells_follow_the_rule(cells: Seq<Seq<CellState>>, x: int, y: int)
    requires
        0 <= y < cells.len(),
        0 <= x < cells[y].len(),
    ensures
        0 <= alive_neighbours(cells, x, y) <= 8,
        next_generation(cells)[y][x] == next_state(cells[y][x], alive_neighbours(cells, x, y)),
        cells[y][x] == CellState::Dead && alive_neighbours(cells, x, y) == 3
            ==> next_generation(cells)[y][x] == CellState::Alive,
        cells[y][x] == CellState::Dead && alive_neighbours(cells, x, y) != 3
            ==> next_generation(cells)[y][x] == CellState::Dead,
        cells[y][x] == CellState::Alive && (alive_neighbours(cells, x, y) == 2 || alive_neighbours(
            cells,
            x,
            y,
        ) == 3) ==> next_generation(cells)[y][x] == CellState::Alive,
        cells[y][x] == CellState::Alive && alive_neighbours(cells, x, y) != 2 && alive_neighbours(
            cells,
            x,
            y,
        ) != 3 ==> next_generation(cells)[y][x] == CellState::Dead,
{
}

/// The rows of a board as they are handed to [`Grid::from_rows`] and handed
/// out by [`Grid::to_rows`], each row taken as a sequence.
pub open spec fn states_of(rows: Seq<Vec<CellState>>) -> Seq<Seq<CellState>> {
    Seq::new(rows.len(), |y: int| rows[y]@)
}

/// Of two cells of a randomly populated board, one is alive on average.
pub const ALIVE_CHANCE_NUMERATOR: u32 = 1;

/// See [`ALIVE_CHANCE_NUMERATOR`].
pub const ALIVE_CHANCE_DENOMINATOR: u32 = 2;

/// The board of a simulation. Its dimensions are fixed when it is made and
/// both are positive.
#[derive(Debug, PartialEq, Eq)]
pub struct Grid {
    width: usize,
    height: usize,
    rows: Vec<Vec<Cell>>,
}

impl View for Grid {
    type V = Seq<Seq<CellState>>;

    closed spec fn view(&self) -> Seq<Seq<CellState>> {
        Seq::new(
            self.rows@.len(),
            |y: int| Seq::new(self.rows@[y]@.len(), |x: int| self.rows@[y]@[x].cell_state),
        )
    }
}

impl Grid {
    #[verifier::type_invariant]
    spec fn well_formed(self) -> bool {
        &&& self.width > 0
        &&& self.height > 0
        &&& self.rows@.len() == self.height
        &&& forall|y: int|
            0 <= y < self.rows@.len() ==> (#[trigger] self.rows@[y])@.len() == self.width
    }

    /// A board of `width` by `height` dead cells.
    pub fn new(width: usize, height: usize) -> (made: Result<Grid, InvalidConfiguration>)
        ensures
            made is Ok <==> width > 0 && height > 0,
            made matches Ok(grid) ==> grid@ == uniform_grid(
                width as nat,
                height as nat,
                CellState::Dead,
            ),
    {
        if width == 0 || height == 0 {
            return Err(InvalidConfiguration);
        }
        let mut rows: Vec<Vec<Cell>> = Vec::new();
        let mut y: usize = 0;
        while y < height
            invariant
                y <= height,
                rows@.len() == y,
                forall|j: int| 0 <= j < y ==> (#[trigger] rows@[j])@.len() == width,
                forall|j: int, i: int|
                    0 <= j < y && 0 <= i < width ==> (#[trigger] rows@[j]@[i]).cell_state
                        == CellState::Dead,
            decreases height - y,
        {
            let mut row: Vec<Cell> = Vec::new();
            let mut x: usize = 0;
            while x < width
                invariant
                    x <= width,
                    row@.len() == x,
                    forall|i: int| 0 <= i < x ==> (#[trigger] row@[i]).cell_state == CellState::Dead,
                decreases width - x,
            {
                row.push(Cell { cell_state: CellState::Dead });
                x += 1;
            }
            rows.push(row);
            y += 1;
        }
        let grid = Grid { width, height, rows };
        assert(grid@ =~~= uniform_grid(width as nat, height as nat, CellState::Dead));
        Ok(grid)
    }

    /// A board of `width` by `height` cells, each of them alive or dead by a
    /// draw of its own that comes out alive half of the time. The draws are
    /// those of a generator made from `seed` and populate the board as
    /// [`Grid::from_draws`] says, so the same seed gives the same board.
    ///
    /// A board of more cells than draws can be held for is refused.
    pub fn random(width: usize, height: usize, seed: u64) -> (made: Result<
        Grid,
        InvalidConfiguration,
    >)
        ensures
            made is Ok <==> width > 0 && height > 0 && width * height <= usize::MAX,
            made matches Ok(grid) ==> {
                &&& grid@ == drawn_board(
                    width as nat,
                    height as nat,
                    seeded_draws(
                        seed,
                        (width * height) as nat,
                        ALIVE_CHANCE_NUMERATOR,
                        ALIVE_CHANCE_DENOMINATOR,
                    ),
                )
                &&& is_grid(grid@)
                &&& grid_width(grid@) == width
                &&& grid_height(grid@) == height
            },
    {
        Grid::random_with_chance(
            width,
            height,
            seed,
            ALIVE_CHANCE_NUMERATOR,
            ALIVE_CHANCE_DENOMINATOR,
        )
    }

    /// A board of `width` by `height` cells, each of them alive with a
    /// chance of `numerator` in `denominator` by a draw of its own. The
    /// draws are those of a generator made from `seed` and populate the
    /// board as [`Grid::from_draws`] says. A chance of zero leaves every
    /// cell dead and a chance of one makes every cell alive.
    ///
    /// A board of more cells than draws can be held for is refused, and so
    /// is a chance that is no part of one.
    pub fn random_with_chance(
        width: usize,
        height: usize,
        seed: u64,
        numerator: u32,
        denominator: u32,
    ) -> (made: Result<Grid, InvalidConfiguration>)
        ensures
            made is Ok <==> width > 0 && height > 0 && width * height <= usize::MAX
                && denominator > 0 && numerator <= denominator,
            made matches Ok(grid) ==> {
                &&& grid@ == drawn_board(
                    width as nat,
                    height as nat,
                    seeded_draws(seed, (width * height) as nat, numerator, denominator),
                )
                &&& is_grid(grid@)
                &&& grid_width(grid@) == width
                &&& grid_height(grid@) == height
                &&& numerator == 0 ==> grid@ == uniform_grid(
                    width as nat,
                    height as nat,
                    CellState::Dead,
                )
                &&& numerator == denominator ==> grid@ == uniform_grid(
                    width as nat,
                    height as nat,
                    CellState::Alive,
                )
            },
    {
        if width == 0 || height == 0 || denominator == 0 || numerator > denominator {
            return Err(InvalidConfiguration);
        }
        let count: usize = match width.checked_mul(height) {
            Some(count) => count,
            None => {
                return Err(InvalidConfiguration);
            },
        };
        let draws = draw_seeded(seed, count, numerator, denominator);
        let made = Grid::from_draws(width, height, &draws);
        proof {
            let board = drawn_board(width as nat, height as nat, draws@);
            if numerator == 0 {
                assert forall|x: int, y: int| 0 <= y < height && 0 <= x < width implies (
                #[trigger] board[y][x]) == CellState::Dead by {
                    lemma_every_cell_has_its_draw(width as int, height as int, x, y);
                }
                assert(board =~~= uniform_grid(width as nat, height as nat, CellState::Dead));
            }
            if numerator == denominator {
                assert forall|x: int, y: int| 0 <= y < height && 0 <= x < width implies (
                #[trigger] board[y][x]) == CellState::Alive by {
                    lemma_every_cell_has_its_draw(width as int, height as int, x, y);
                }
                assert(board =~~= uniform_grid(width as nat, height as nat, CellState::Alive));
            }
        }
        made
    }

    /// The board of `width` by `height` cells that `draws` populates. The
    /// draws are handed out column by column and down each column from its
    /// first row, one draw to a cell: the cell at `(x, y)` takes the draw at
    /// `x * height + y` and is alive where that draw is `true`. There must be
    /// as many draws as the board has cells.
    pub fn from_draws(width: usize, height: usize, draws: &Vec<bool>) -> (made: Result<
        Grid,
        InvalidConfiguration,
    >)
        ensures
            made is Ok <==> width > 0 && height > 0 && draws@.len() == width * height,
            made matches Ok(grid) ==> grid@ == drawn_board(
                width as nat,
                height as nat,
                draws@,
            ),
    {
        if width == 0 || height == 0 {
            return Err(InvalidConfiguration);
        }
        let given: usize = draws.len();
        match width.checked_mul(height) {
            Some(count) => {
                if given != count {
                    return Err(InvalidConfiguration);
                }
            },
            None => {
                return Err(InvalidConfiguration);
            },
        }
        let mut rows: Vec<Vec<Cell>> = Vec::new();
        let mut y: usize = 0;
        while y < height
            invariant
                y <= height,
                draws@.len() == width * height,
                width * height <= usize::MAX,
                rows@.len() == y,
                forall|j: int| 0 <= j < y ==> (#[trigger] rows@[j])@.len() == width,
                forall|j: int, i: int|
                    0 <= j < y && 0 <= i < width ==> (#[trigger] rows@[j]@[i]).cell_state
                        == drawn_state(draws@[i * height + j]),
            decreases height - y,
        {
            let mut row: Vec<Cell> = Vec::new();
            let mut x: usize = 0;
            while x < width
                invariant
                    x <= width,
                    y < height,
                    draws@.len() == width * height,
                    width * height <= usize::MAX,
                    row@.len() == x,
                    forall|i: int|
                        0 <= i < x ==> (#[trigger] row@[i]).cell_state == drawn_state(
                            draws@[i * height + y],
                        ),
                decreases width - x,
            {
                proof {
                    lemma_every_cell_has_its_draw(
                        width as int,
                        height as int,
                        x as int,
                        y as int,
                    );
                }
                let index: usize = x * height + y;
                row.push(Cell { cell_state: CellState::from_alive(draws[index]) });
                x += 1;
            }
            rows.push(row);
            y += 1;
        }
        let grid = Grid { width, height, rows };
        assert(grid@ =~~= drawn_board(width as nat, height as nat, draws@));
        Ok(grid)
    }

    /// The board whose row `y` is `rows[y]`. The rows must describe a
    /// rectangle with at least one cell.
    pub fn from_rows(rows: &Vec<Vec<CellState>>) -> (made: Result<Grid, InvalidConfiguration>)
        ensures
            made is Ok <==> is_grid(states_of(rows@)),
            made matches Ok(grid) ==> grid@ == states_of(rows@),
    {
        let height: usize = rows.len();
        if height == 0 {
            return Err(InvalidConfiguration);
        }
        let width: usize = rows[0].len();
        if width == 0 {
            return Err(InvalidConfiguration);
        }
        let ghost given = states_of(rows@);
        let mut copied: Vec<Vec<Cell>> = Vec::new();
        let mut y: usize = 0;
        while y < height
            invariant
                y <= height,
                height == rows@.len(),
                width == rows@[0]@.len(),
                given == states_of(rows@),
                copied@.len() == y,
                forall|j: int| 0 <= j < y ==> (#[trigger] rows@[j])@.len() == width,
                forall|j: int| 0 <= j < y ==> (#[trigger] copied@[j])@.len() == width,
                forall|j: int, i: int|
                    0 <= j < y && 0 <= i < width ==> (#[trigger] copied@[j]@[i]).cell_state
                        == rows@[j]@[i],
            decreases height - y,
        {
            let source = &rows[y];
            if source.len() != width {
                assert(given[y as int].len() != given[0].len());
                return Err(InvalidConfiguration);
            }
            let mut row: Vec<Cell> = Vec::new();
            let mut x: usize = 0;
            while x < width
                invariant
                    x <= width,
                    source@.len() == width,
                    row@.len() == x,
                    forall|i: int| 0 <= i < x ==> (#[trigger] row@[i]).cell_state == source@[i],
                decreases width - x,
            {
                row.push(Cell { cell_state: source[x] });
                x += 1;
            }
            copied.push(row);
            y += 1;
        }
        let grid = Grid { width, height, rows: copied };
        assert(grid@ =~~= given);
        assert(is_grid(given)) by {
            assert forall|j: int| 0 <= j < given.len() implies (#[trigger] given[j]).len()
                == given[0].len() by {
                assert(rows@[j]@.len() == width);
            }
        }
        Ok(grid)
    }

    /// The rows of the board, row `y` at index `y`.
    pub fn to_rows(&self) -> (rows: Vec<Vec<CellState>>)
        ensures
            states_of(rows@) == self@,
    {
        proof {
            use_type_invariant(self);
        }
        let mut rows: Vec<Vec<CellState>> = Vec::new();
        let mut y: usize = 0;
        while y < self.height
            invariant
                y <= self.height,
                self.well_formed(),
                rows@.len() == y,
                forall|j: int| 0 <= j < y ==> (#[trigger] rows@[j])@.len() == self.width,
                forall|j: int, i: int|
                    0 <= j < y && 0 <= i < self.width ==> (#[trigger] rows@[j]@[i])
                        == self.rows@[j]@[i].cell_state,
            decreases self.height - y,
        {
            let source = &self.rows[y];
            let mut row: Vec<CellState> = Vec::new();
            let mut x: usize = 0;
            while x < self.width
                invariant
                    x <= self.width,
                    source@.len() == self.width,
                    row@.len() == x,
                    forall|i: int| 0 <= i < x ==> (#[trigger] row@[i]) == source@[i].cell_state,
                decreases self.width - x,
            {
                row.push(source[x].cell_state);
                x += 1;
            }
            rows.push(row);
            y += 1;
        }
        assert(states_of(rows@) =~~= self@);
        rows
    }

    /// Number of columns.
    pub fn width(&self) -> (width: usize)
        ensures
            width == grid_width(self@),
            is_grid(self@),
    {
        proof {
            use_type_invariant(self);
        }
        self.width
    }

    /// Number of rows.
    pub fn height(&self) -> (height: usize)
        ensures
            height == grid_height(self@),
            is_grid(self@),
    {
        proof {
            use_type_invariant(self);
        }
        self.height
    }

    /// The cell at `(x, y)`, or `None` where the board has no such position.
    pub fn get(&self, x: usize, y: usize) -> (found: Option<Cell>)
        ensures
            found is Some <==> x < grid_width(self@) && y < grid_height(self@),
            found matches Some(cell) ==> cell.cell_state == self@[y as int][x as int],
    {
        proof {
            use_type_invariant(self);
        }
        if y < self.height && x < self.width {
            Some(self.rows[y][x])
        } else {
            None
        }
    }

    /// Every cell of the board with its position, row after row.
    pub fn cells(&self) -> (listed: Vec<(Position, CellState)>)
        ensures
            listed@ == enumerated(self@),
    {
        proof {
            use_type_invariant(self);
        }
        let ghost width = self.width as int;
        let mut listed: Vec<(Position, CellState)> = Vec::new();
        let mut y: usize = 0;
        while y < self.height
            invariant
                y <= self.height,
                self.well_formed(),
                width == self.width,
                listed@.len() == y * width,
                forall|k: int|
                    0 <= k < listed@.len() ==> #[trigger] listed@[k] == (
                        Position { x: (k % width) as usize, y: (k / width) as usize },
                        self.rows@[k / width]@[k % width].cell_state,
                    ),
            decreases self.height - y,
        {
            let mut x: usize = 0;
            while x < self.width
                invariant
                    x <= self.width,
                    y < self.height,
                    self.well_formed(),
                    width == self.width,
                    listed@.len() == y * width + x,
                    forall|k: int|
                        0 <= k < listed@.len() ==> #[trigger] listed@[k] == (
                            Position { x: (k % width) as usize, y: (k / width) as usize },
                            self.rows@[k / width]@[k % width].cell_state,
                        ),
                decreases self.width - x,
            {
                proof {
                    lemma_fundamental_div_mod_converse(y * width + x, width, y as int, x as int);
                }
                listed.push((Position { x, y }, self.rows[y][x].cell_state));
                x += 1;
            }
            assert(y * width + width == (y + 1) * width) by (nonlinear_arith);
            y += 1;
        }
        proof {
            assert(self.height * width == width * self.height) by (nonlinear_arith);
            assert(listed@.len() == enumerated(self@).len());
            assert forall|k: int| 0 <= k < listed@.len() implies #[trigger] listed@[k]
                == enumerated(self@)[k] by {
                lemma_flat_index_lies_on_board(k, width, self.height as int);
            }
            assert(listed@ =~= enumerated(self@));
        }
        listed
    }

    /// What the position `(x + dx, y + dy)` adds to a neighbour count: `1`
    /// where it lies on the board and holds a live cell, `0` otherwise.
    fn population_at(&self, x: usize, y: usize, dx: i8, dy: i8) -> (population: u8)
        requires
            -1 <= dx <= 1,
            -1 <= dy <= 1,
        ensures
            population == state_at(self@, x + dx, y + dy).population(),
    {
        proof {
            use_type_invariant(self);
        }
        match (shifted(x, dx, self.width), shifted(y, dy, self.height)) {
            (Some(column), Some(row)) => {
                if self.rows[row][column].cell_state.is_alive() {
                    1
                } else {
                    0
                }
            },
            _ => 0,
        }
    }

    /// How many of the eight positions around `(x, y)` hold a live cell.
    /// Positions outside the board hold none.
    pub fn count_alive_neighbours(&self, x: usize, y: usize) -> (count: u8)
        ensures
            count == alive_neighbours(self@, x as int, y as int),
            count <= 8,
    {
        let above: u8 = self.population_at(x, y, -1, -1) + self.population_at(x, y, 0, -1)
            + self.population_at(x, y, 1, -1);
        let beside: u8 = self.population_at(x, y, -1, 0) + self.population_at(x, y, 1, 0);
        let below: u8 = self.population_at(x, y, -1, 1) + self.population_at(x, y, 0, 1)
            + self.population_at(x, y, 1, 1);
        above + beside + below
    }

    /// The next generation, as a board of its own. `self` is left as it is:
    /// every cell of the result is computed from the neighbours that the cell
    /// has in `self`.
    pub fn step(&self) -> (next: Grid)
        ensures
            next@ == next_generation(self@),
            is_grid(next@),
            grid_width(next@) == grid_width(self@),
            grid_height(next@) == grid_height(self@),
    {
        proof {
            use_type_invariant(self);
        }
        let mut rows: Vec<Vec<Cell>> = Vec::new();
        let mut y: usize = 0;
        while y < self.height
            invariant
                y <= self.height,
                self.well_formed(),
                rows@.len() == y,
                forall|j: int| 0 <= j < y ==> (#[trigger] rows@[j])@.len() == self.width,
                forall|j: int, i: int|
                    0 <= j < y && 0 <= i < self.width ==> (#[trigger] rows@[j]@[i]).cell_state
                        == next_state(self@[j][i], alive_neighbours(self@, i, j)),
            decreases self.height - y,
        {
            let mut row: Vec<Cell> = Vec::new();
            let mut x: usize = 0;
            while x < self.width
                invariant
                    x <= self.width,
                    y < self.height,
                    self.well_formed(),
                    row@.len() == x,
                    forall|i: int|
                        0 <= i < x ==> (#[trigger] row@[i]).cell_state == next_state(
                            self@[y as int][i],
                            alive_neighbours(self@, i, y as int),
                        ),
                decreases self.width - x,
            {
                let count: u8 = self.count_alive_neighbours(x, y);
                let cell_state = self.rows[y][x].cell_state.evolve(count);
                row.push(Cell { cell_state });
                x += 1;
            }
            rows.push(row);
            y += 1;
        }
        let next = Grid { width: self.width, height: self.height, rows };
        assert(next@ =~~= next_generation(self@));
        next
    }

    /// Replaces the board by its next generation. The whole generation is
    /// computed before any cell changes.
    pub fn iterate_board_state(&mut self)
        ensures
            final(self)@ == next_generation(old(self)@),
            is_grid(final(self)@),
            grid_width(final(self)@) == grid_width(old(self)@),
            grid_height(final(self)@) == grid_height(old(self)@),
    {
        let next = self.step();
        *self = next;
    }
}

impl Clone for Grid {
    fn clone(&self) -> (copy: Grid)
        ensures
            copy@ == self@,
    {
        proof {
            use_type_invariant(self);
        }
        let mut rows: Vec<Vec<Cell>> = Vec::new();
        let mut y: usize = 0;
        while y < self.height
            invariant
                y <= self.height,
                self.well_formed(),
                rows@.len() == y,
                forall|j: int| 0 <= j < y ==> (#[trigger] rows@[j])@.len() == self.width,
                forall|j: int, i: int|
                    0 <= j < y && 0 <= i < self.width ==> (#[trigger] rows@[j]@[i])
                        == self.rows@[j]@[i],
            decreases self.height - y,
        {
            let source = &self.rows[y];
            let mut row: Vec<Cell> = Vec::new();
            let mut x: usize = 0;
            while x < self.width
                invariant
                    x <= self.width,
                    source@.len() == self.width,
                    row@.len() == x,
                    forall|i: int| 0 <= i < x ==> (#[trigger] row@[i]) == source@[i],
                decreases self.width - x,
            {
                row.push(source[x]);
                x += 1;
            }
            rows.push(row);
            y += 1;
        }
        let copy = Grid { width: self.width, height: self.height, rows };
        assert(copy@ =~~= self@);
        copy
    }
}

/// The `k`-th cell of a board of `width` by `height` cells, counted row
/// after row, stands in a row and a column of the board.
proof fn lemma_flat_index_lies_on_board(k: int, width: int, height: int)
    requires
        width > 0,
        0 <= k < width * height,
    ensures
        0 <= k / width < height,
        0 <= k % width < width,
{
    assert(0 <= k / width < height && 0 <= k % width < width) by (nonlinear_arith)
        requires
            width > 0,
            0 <= k < width * height,
    ;
}

/// `position + shift` where that lies in `0..limit`.
fn shifted(position: usize, shift: i8, limit: usize) -> (moved: Option<usize>)
    requires
        -1 <= shift <= 1,
    ensures
        moved is Some <==> 0 <= position + shift < limit,
        moved matches Some(target) ==> target == position + shift,
{
    if shift < 0 {
        if position == 0 || position - 1 >= limit {
            None
        } else {
            Some(position - 1)
        }
    } else if shift == 0 {
        if position < limit {
            Some(position)
        } else {
            None
        }
    } else {
        if position < limit && position + 1 < limit {
            Some(position + 1)
        } else {
            None
        }
    }
}

} // verus!
