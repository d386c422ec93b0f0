//! The explorer: a walker that wanders the screen at random and leaves a
//! trail of box-drawing lines behind it.

use vstd::prelude::*;
use crate::chance::random_below;

verus! {

/// A step of the walker.
#[derive(Copy, Clone, Debug, PartialEq, Eq, Structural)]
pub enum Direction {
    Up,
    Down,
    Left,
    Right,
}

/// The direction numbered `i`: 0 up, 1 down, 2 left, anything else right.
pub open spec fn direction_of(i: usize) -> Direction {
    if i == 0 {
        Direction::Up
    } else if i == 1 {
        Direction::Down
    } else if i == 2 {
        Direction::Left
    } else {
        Direction::Right
    }
}

impl Direction {
    /// The direction back where a step in this one came from.
    pub open spec fn opposite(self) -> Direction {
        match self {
            Direction::Up => Direction::Down,
            Direction::Down => Direction::Up,
            Direction::Left => Direction::Right,
            Direction::Right => Direction::Left,
        }
    }

    /// The direction numbered `i`: 0 up, 1 down, 2 left, anything else right.
    pub fn from_index(i: usize) -> (d: Direction)
        ensures
            d == direction_of(i),
    {
        if i == 0 {
            Direction::Up
        } else if i == 1 {
            Direction::Down
        } else if i == 2 {
            Direction::Left
        } else {
            Direction::Right
        }
    }

    /// A direction drawn at random, each of the four alike.
    pub fn random() -> (d: Direction) {
        Direction::from_index(random_below(0, 4))
    }
}

/// Whether a step in direction `d` from column `x`, row `y` stays on a
/// screen `width` columns wide and `height` rows high.
pub open spec fn can_go(x: usize, y: usize, d: Direction, width: usize, height: usize) -> bool {
    match d {
        Direction::Up => y > 0,
        Direction::Down => y + 1 < height,
        Direction::Left => x > 0,
        Direction::Right => x + 1 < width,
    }
}

/// The column after a step in direction `d` from column `x`.
pub open spec fn step_x(x: usize, d: Direction) -> int {
    match d {
        Direction::Left => x - 1,
        Direction::Right => x + 1,
        _ => x as int,
    }
}

/// The row after a step in direction `d` from row `y`.
pub open spec fn step_y(y: usize, d: Direction) -> int {
    match d {
        Direction::Up => y - 1,
        Direction::Down => y + 1,
        _ => y as int,
    }
}

/// One character cell of the maze: which of its four sides a line leaves
/// from.
#[derive(Copy, Clone, Debug, PartialEq, Eq, Structural)]
pub struct Cell {
    pub up: bool,
    pub down: bool,
    pub left: bool,
    pub right: bool,
}

impl Cell {
    /// The box-drawing character with lines toward exactly the cell's
    /// sides; a space for none.
    pub open spec fn box_char(self) -> char {
        match (self.up, self.down, self.left, self.right) {
            (false, false, false, false) => ' ',
            (false, false, false, true) => '╶',
            (false, false, true, false) => '╴',
            (false, false, true, true) => '─',
            (false, true, false, false) => '╷',
            (false, true, false, true) => '┌',
            (false, true, true, false) => '┐',
            (false, true, true, true) => '┬',
            (true, false, false, false) => '╵',
            (true, false, false, true) => '└',
            (true, false, true, false) => '┘',
            (true, false, true, true) => '┴',
            (true, true, false, false) => '│',
            (true, true, false, true) => '├',
            (true, true, true, false) => '┤',
            (true, true, true, true) => '┼',
        }
    }

    /// The cell with a line toward side `d` as well.
    pub open spec fn with_branch(self, d: Direction) -> Cell {
        match d {
            Direction::Up => Cell { up: true, ..self },
            Direction::Down => Cell { down: true, ..self },
            Direction::Left => Cell { left: true, ..self },
            Direction::Right => Cell { right: true, ..self },
        }
    }

    /// The cell with no line.
    pub open spec fn new_spec() -> Cell {
        Cell { up: false, down: false, left: false, right: false }
    }

    /// A cell with no line, shown as a space.
    pub fn new() -> (c: Cell)
        ensures
            c == Cell::new_spec(),
            c.box_char() == ' ',
    {
        Cell { up: false, down: false, left: false, right: false }
    }

    /// The box-drawing character for the cell's lines.
    pub fn get_char(&self) -> (c: char)
        ensures
            c == self.box_char(),
    {
        match (self.up, self.down, self.left, self.right) {
            (false, false, false, false) => ' ',
            (false, false, false, true) => '╶',
            (false, false, true, false) => '╴',
            (false, false, true, true) => '─',
            (false, true, false, false) => '╷',
            (false, true, false, true) => '┌',
            (false, true, true, false) => '┐',
            (false, true, true, true) => '┬',
            (true, false, false, false) => '╵',
            (true, false, false, true) => '└',
            (true, false, true, false) => '┘',
            (true, false, true, true) => '┴',
            (true, true, false, false) => '│',
            (true, true, false, true) => '├',
            (true, true, true, false) => '┤',
            (true, true, true, true) => '┼',
        }
    }

    /// Adds the lines of the walker's last move through this cell: toward
    /// the side it came in from, and toward the side it left by.
    pub fn update_branches(&mut self, warm: &Warm)
        ensures
            *final(self) == old(self).with_branch(warm.prev_dir.opposite()).with_branch(warm.dir),
    {
        match warm.prev_dir {
            Direction::Up => self.down = true,
            Direction::Down => self.up = true,
            Direction::Left => self.right = true,
            Direction::Right => self.left = true,
        }
        match warm.dir {
            Direction::Up => self.up = true,
            Direction::Down => self.down = true,
            Direction::Left => self.left = true,
            Direction::Right => self.right = true,
        }
    }
}

/// The walker: where it is, where it was, and its last two directions.
#[derive(Copy, Clone, Debug, PartialEq, Eq, Structural)]
pub struct Warm {
    pub x: usize,
    pub y: usize,
    pub prev_x: usize,
    pub prev_y: usize,
    pub dir: Direction,
    pub prev_dir: Direction,
}

/// The directions open from column `x`, row `y`, as a list without repeats.
fn open_directions(x: usize, y: usize, width: usize, height: usize) -> (v: Vec<Direction>)
    requires
        x < width,
        y < height,
    ensures
        forall|d: Direction| v@.contains(d) <==> can_go(x, y, d, width, height),
{
    let mut v: Vec<Direction> = Vec::new();
    if y > 0 {
        v.push(Direction::Up);
    }
    if y + 1 < height {
        v.push(Direction::Down);
    }
    if x > 0 {
        v.push(Direction::Left);
    }
    if x + 1 < width {
        v.push(Direction::Right);
    }
    proof {
        assert forall|d: Direction| v@.contains(d) <==> can_go(x, y, d, width, height) by {
            if can_go(x, y, d, width, height) {
                let i = match d {
                    Direction::Up => 0int,
                    Direction::Down => if y > 0 { 1int } else { 0int },
                    Direction::Left => (if y > 0 { 1int } else { 0int }) + (if y + 1 < height { 1int } else { 0int }),
                    Direction::Right => v@.len() - 1,
                };
                assert(v@[i] == d);
            }
        }
    }
    v
}

/// A direction drawn at random among those that keep the walker on a screen
/// `width` columns wide and `height` rows high.
pub fn pick_direction(x: usize, y: usize, width: usize, height: usize) -> (d: Direction)
    requires
        x < width,
        y < height,
        width > 1 || height > 1,
    ensures
        can_go(x, y, d, width, height),
{
    let open = open_directions(x, y, width, height);
    proof {
        if width > 1 {
            if x > 0 {
                assert(can_go(x, y, Direction::Left, width, height));
                assert(open@.contains(Direction::Left));
            } else {
                assert(can_go(x, y, Direction::Right, width, height));
                assert(open@.contains(Direction::Right));
            }
        } else {
            if y > 0 {
                assert(can_go(x, y, Direction::Up, width, height));
                assert(open@.contains(Direction::Up));
            } else {
                assert(can_go(x, y, Direction::Down, width, height));
                assert(open@.contains(Direction::Down));
            }
        }
    }
    let i = random_below(0, open.len());
    let d = open[i];
    assert(open@.contains(d));
    d
}

impl Warm {
    /// The walker after a step in direction `d`.
    pub open spec fn moved(self, d: Direction) -> Warm {
        Warm {
            x: step_x(self.x, d) as usize,
            y: step_y(self.y, d) as usize,
            prev_x: self.x,
            prev_y: self.y,
            dir: d,
            prev_dir: self.dir,
        }
    }

    /// Whether the walker and the place it came from are on a screen `width`
    /// columns wide and `height` rows high.
    pub open spec fn on_screen(self, width: usize, height: usize) -> bool {
        &&& self.x < width
        &&& self.y < height
        &&& self.prev_x < width
        &&& self.prev_y < height
    }

    /// A walker standing at column `x`, row `y`, facing a random direction
    /// and coming from a random one.
    pub fn new(x: usize, y: usize) -> (w: Warm)
        ensures
            w.x == x,
            w.y == y,
            w.prev_x == x,
            w.prev_y == y,
    {
        Warm { x, y, prev_x: x, prev_y: y, dir: Direction::random(), prev_dir: Direction::random() }
    }

    /// Takes a step in direction `d`, remembering where it was and its
    /// former direction.
    pub fn move_to(&mut self, d: Direction, width: usize, height: usize)
        requires
            old(self).x < width,
            old(self).y < height,
            can_go(old(self).x, old(self).y, d, width, height),
        ensures
            *final(self) == old(self).moved(d),
            final(self).on_screen(width, height),
    {
        self.prev_dir = self.dir;
        self.prev_x = self.x;
        self.prev_y = self.y;
        self.dir = d;
        match d {
            Direction::Up => self.y = self.y - 1,
            Direction::Down => self.y = self.y + 1,
            Direction::Left => self.x = self.x - 1,
            Direction::Right => self.x = self.x + 1,
        }
    }

    /// Takes a step in a random direction that keeps it on the screen.
    pub fn move_randomly(&mut self, width: usize, height: usize)
        requires
            old(self).x < width,
            old(self).y < height,
            width > 1 || height > 1,
        ensures
            can_go(old(self).x, old(self).y, final(self).dir, width, height),
            *final(self) == old(self).moved(final(self).dir),
            final(self).on_screen(width, height),
    {
        let d = pick_direction(self.x, self.y, width, height);
        self.move_to(d, width, height);
    }
}

/// The character that shows where the walker stands.
pub const WALKER_GLYPH: char = '+';

/// A character to show at a place of the screen.
#[derive(Copy, Clone, Debug, PartialEq, Eq, Structural)]
pub struct Mark {
    pub row: usize,
    pub column: usize,
    pub glyph: char,
}

/// The maze a walker draws on a screen `width` columns wide and `height`
/// rows high.
pub struct Explorer {
    cells: Vec<Vec<Cell>>,
    warm: Warm,
    width: usize,
    height: usize,
}

impl View for Explorer {
    type V = Seq<Seq<Cell>>;

    /// The cells of the maze, row by row.
    closed spec fn view(&self) -> Seq<Seq<Cell>> {
        self.cells@.map_values(|r: Vec<Cell>| r@)
    }
}

impl Explorer {
    pub closed spec fn warm_spec(&self) -> Warm {
        self.warm
    }

    pub closed spec fn width_spec(&self) -> usize {
        self.width
    }

    pub closed spec fn height_spec(&self) -> usize {
        self.height
    }

    /// `height` rows of `width` cells, room for at least one step, and the
    /// walker on the screen.
    pub open spec fn wf(&self) -> bool {
        &&& self@.len() == self.height_spec()
        &&& forall|r: int| 0 <= r < self@.len() ==> (#[trigger] self@[r]).len() == self.width_spec()
        &&& self.width_spec() > 1 || self.height_spec() > 1
        &&& self.warm_spec().on_screen(self.width_spec(), self.height_spec())
    }

    /// A maze with the walker in the middle of the screen, its cell already
    /// showing the lines of its two random directions. `None` when the
    /// screen has no room for a step.
    pub fn new(width: usize, height: usize) -> (r: Option<Explorer>)
        ensures
            r is None <==> (width == 0 || height == 0 || (width == 1 && height == 1)),
            r matches Some(e) ==> {
                let w = e.warm_spec();
                &&& e.wf()
                &&& e.width_spec() == width
                &&& e.height_spec() == height
                &&& w.x == width / 2 && w.y == height / 2
                &&& w.prev_x == w.x && w.prev_y == w.y
                &&& forall|r: int, c: int|
                    0 <= r < height && 0 <= c < width && !(r == w.y && c == w.x) ==> #[trigger] e@[r][c]
                        == Cell::new_spec()
                &&& e@[w.y as int][w.x as int] == Cell::new_spec().with_branch(w.prev_dir.opposite()).with_branch(w.dir)
            },
    {
        if width == 0 || height == 0 || (width == 1 && height == 1) {
            return None;
        }
        let mut cells: Vec<Vec<Cell>> = Vec::new();
        let mut r: usize = 0;
        while r < height
            invariant
                r <= height,
                cells@.len() == r,
                forall|i: int| 0 <= i < r ==> (#[trigger] cells@[i])@.len() == width,
                forall|i: int, c: int| 0 <= i < r && 0 <= c < width ==> #[trigger] cells@[i]@[c] == Cell::new_spec(),
            decreases height - r,
        {
            let mut row: Vec<Cell> = Vec::new();
            let mut c: usize = 0;
            while c < width
                invariant
                    c <= width,
                    row@.len() == c,
                    forall|j: int| 0 <= j < c ==> #[trigger] row@[j] == Cell::new_spec(),
                decreases width - c,
            {
                row.push(Cell::new());
                c = c + 1;
            }
            cells.push(row);
            r = r + 1;
        }
        let warm = Warm::new(width / 2, height / 2);
        let mut e = Explorer { cells, warm, width, height };
        e.carve(warm.y, warm.x);
        Some(e)
    }

    /// Adds the walker's last move to the lines of the cell at row `r`,
    /// column `c`.
    fn carve(&mut self, r: usize, c: usize)
        requires
            old(self)@.len() == old(self).height_spec(),
            forall|i: int| 0 <= i < old(self)@.len() ==> (#[trigger] old(self)@[i]).len() == old(self).width_spec(),
            r < old(self).height_spec(),
            c < old(self).width_spec(),
        ensures
            final(self)@ == old(self)@.update(
                r as int,
                old(self)@[r as int].update(
                    c as int,
                    old(self)@[r as int][c as int].with_branch(old(self).warm_spec().prev_dir.opposite()).with_branch(
                        old(self).warm_spec().dir,
                    ),
                ),
            ),
            final(self).warm_spec() == old(self).warm_spec(),
            final(self).width_spec() == old(self).width_spec(),
            final(self).height_spec() == old(self).height_spec(),
    {
        assert(self.cells@[r as int]@ == self@[r as int]);
        let mut cell = self.cells[r][c];
        cell.update_branches(&self.warm);
        self.cells[r].set(c, cell);
        assert(self@ =~= old(self)@.update(r as int, old(self)@[r as int].update(c as int, cell)));
    }

    /// One tick toward direction `d`: shows the cell the walker last left
    /// with its lines, shows the walker where it stands, then moves it and
    /// adds the move's lines to the cell it stood on.
    pub fn step_with(&mut self, d: Direction) -> (marks: Vec<Mark>)
        requires
            old(self).wf(),
            can_go(old(self).warm_spec().x, old(self).warm_spec().y, d, old(self).width_spec(), old(self).height_spec()),
        ensures
            final(self).wf(),
            final(self).width_spec() == old(self).width_spec(),
            final(self).height_spec() == old(self).height_spec(),
            ({
                let w = old(self).warm_spec();
                &&& marks@ == seq![
                    Mark { row: w.prev_y, column: w.prev_x, glyph: old(self)@[w.prev_y as int][w.prev_x as int].box_char() },
                    Mark { row: w.y, column: w.x, glyph: WALKER_GLYPH },
                ]
                &&& final(self).warm_spec() == w.moved(d)
                &&& final(self)@ == old(self)@.update(
                    w.y as int,
                    old(self)@[w.y as int].update(
                        w.x as int,
                        old(self)@[w.y as int][w.x as int].with_branch(w.dir.opposite()).with_branch(d),
                    ),
                )
            }),
    {
        let w = self.warm;
        assert(self.cells@[w.prev_y as int]@ == self@[w.prev_y as int]);
        let shown = self.cells[w.prev_y][w.prev_x].get_char();
        let mut marks: Vec<Mark> = Vec::new();
        marks.push(Mark { row: w.prev_y, column: w.prev_x, glyph: shown });
        marks.push(Mark { row: w.y, column: w.x, glyph: WALKER_GLYPH });
        self.warm.move_to(d, self.width, self.height);
        self.carve(w.y, w.x);
        proof {
            assert(marks@ =~= seq![
                Mark { row: w.prev_y, column: w.prev_x, glyph: old(self)@[w.prev_y as int][w.prev_x as int].box_char() },
                Mark { row: w.y, column: w.x, glyph: WALKER_GLYPH },
            ]);
            assert forall|r: int| 0 <= r < self@.len() implies (#[trigger] self@[r]).len() == self.width_spec() by {
                assert(old(self)@[r].len() == self.width_spec());
            }
        }
        marks
    }

    /// One tick in a random direction that keeps the walker on the screen.
    pub fn step(&mut self) -> (marks: Vec<Mark>)
        requires
            old(self).wf(),
        ensures
            final(self).wf(),
            final(self).width_spec() == old(self).width_spec(),
            final(self).height_spec() == old(self).height_spec(),
            ({
                let w = old(self).warm_spec();
                let d = final(self).warm_spec().dir;
                &&& can_go(w.x, w.y, d, old(self).width_spec(), old(self).height_spec())
                &&& marks@ == seq![
                    Mark { row: w.prev_y, column: w.prev_x, glyph: old(self)@[w.prev_y as int][w.prev_x as int].box_char() },
                    Mark { row: w.y, column: w.x, glyph: WALKER_GLYPH },
                ]
                &&& final(self).warm_spec() == w.moved(d)
                &&& final(self)@ == old(self)@.update(
                    w.y as int,
                    old(self)@[w.y as int].update(
                        w.x as int,
                        old(self)@[w.y as int][w.x as int].with_branch(w.dir.opposite()).with_branch(d),
                    ),
                )
            }),
    {
        let d = pick_direction(self.warm.x, self.warm.y, self.width, self.height);
        self.step_with(d)
    }

    /// The walker.
    pub fn warm(&self) -> (w: Warm)
        ensures
            w == self.warm_spec(),
    {
        self.warm
    }

    /// The cell at row `r`, column `c`.
    pub fn cell(&self, r: usize, c: usize) -> (v: Cell)
        requires
            self.wf(),
            r < self.height_spec(),
            c < self.width_spec(),
        ensures
            v == self@[r as int][c as int],
    {
        assert(self.cells@[r as int]@ == self@[r as int]);
        self.cells[r][c]
    }
}

} // verus!
