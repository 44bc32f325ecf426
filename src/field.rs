//! The board of the console game: seven columns of seven cells, pieces
//! falling to the lowest free cell of a column.
use vstd::prelude::*;
use vstd::string::*;
use crate::text::{parse_usize, string_from_chars, trim_text, trimmed, usize_of_text};

verus! {

/// Columns, and cells in each column.
pub const FIELD_SIZE: usize = 7;

#[derive(Clone, Copy, PartialEq, Eq, Structural, Debug)]
pub enum Player {
    X,
    O,
}

/// The board. Cell `(x, y)` is column `x`, row `y`; row 0 is the bottom.
pub struct Field {
    cells: Vec<Option<Player>>,
    last_drop: usize,
}

pub open spec fn idx(x: int, y: int) -> int {
    x * 7 + y
}

/// `y` is the lowest free cell of column `x`.
pub open spec fn lowest_free(s: Seq<Option<Player>>, x: int, y: int) -> bool {
    &&& 0 <= y < 7
    &&& s[idx(x, y)] is None
    &&& forall|k: int| 0 <= k < y ==> (#[trigger] s[idx(x, k)]) is Some
}

/// Where a piece dropped in column `x` lands: `None` when the column is full.
pub open spec fn landing_row(s: Seq<Option<Player>>, x: int) -> Option<int> {
    if exists|y: int| lowest_free(s, x, y) {
        Some(choose|y: int| lowest_free(s, x, y))
    } else {
        None
    }
}

pub open spec fn digit(x: int) -> char {
    seq!['0', '1', '2', '3', '4', '5', '6'][x]
}

pub open spec fn symbol(c: Option<Player>) -> char {
    match c {
        Some(Player::X) => 'X',
        Some(Player::O) => 'O',
        None => ' ',
    }
}

/// The header label of column `x`: `v` over the last column dropped in.
pub open spec fn label(last: int, x: int) -> Seq<char> {
    seq![if last == x { 'v' } else { digit(x) }, ' ']
}

pub open spec fn header(last: int, n: int) -> Seq<char>
    decreases n,
{
    if n <= 0 {
        Seq::empty()
    } else {
        header(last, n - 1) + label(last, n - 1)
    }
}

/// The three characters written before column 0 of each row.
pub open spec fn separator() -> Seq<char> {
    seq!['\u{e2}', '\u{201d}', '\u{20ac}']
}

pub open spec fn cell_text(s: Seq<Option<Player>>, x: int, y: int) -> Seq<char> {
    (if x == 0 { separator() } else { Seq::empty() }) + seq![symbol(s[idx(x, y)]), ' ']
}

/// The first `n` cells of row `y`, from column 6 down.
pub open spec fn row(s: Seq<Option<Player>>, y: int, n: int) -> Seq<char>
    decreases n,
{
    if n <= 0 {
        Seq::empty()
    } else {
        row(s, y, n - 1) + cell_text(s, 6 - (n - 1), y)
    }
}

pub open spec fn rows(s: Seq<Option<Player>>, n: int) -> Seq<char>
    decreases n,
{
    if n <= 0 {
        Seq::empty()
    } else {
        rows(s, n - 1) + row(s, n - 1, 7) + seq!['\n']
    }
}

/// What the board looks like on the console.
pub open spec fn render_spec(s: Seq<Option<Player>>, last: int) -> Seq<char> {
    header(last, 7) + rows(s, 7)
}

/// What the operator's line asks of the game.
#[derive(Clone, Copy, PartialEq, Eq, Structural, Debug)]
pub enum Choice {
    Column(usize),
    Quit,
    Again,
}

pub open spec fn choice_spec(t: Seq<char>, number: Option<usize>) -> Choice {
    match number {
        Some(n) => if n < 7 {
            Choice::Column(n)
        } else {
            Choice::Again
        },
        None => if t == "q"@ {
            Choice::Quit
        } else {
            Choice::Again
        },
    }
}

/// The choice for the trimmed line `t` that reads as `number`: a column on
/// the board, `q` to quit, anything else asks again.
pub fn classify_choice(t: &str, number: Option<usize>) -> (r: Choice)
    ensures
        r == choice_spec(t@, number),
{
    match number {
        Some(n) => if n < FIELD_SIZE {
            Choice::Column(n)
        } else {
            Choice::Again
        },
        None => {
            proof {
                reveal_strlit("q");
            }
            if t.unicode_len() == 1 && t.get_char(0) == 'q' {
                assert(t@ =~= "q"@);
                Choice::Quit
            } else {
                Choice::Again
            }
        },
    }
}

/// The choice for an operator's line, trimmed of surrounding whitespace.
pub fn read_choice(line: &str) -> (r: Choice)
    ensures
        r == choice_spec(trimmed(line@), usize_of_text(trimmed(line@))),
{
    let t = trim_text(line);
    let number = parse_usize(t.as_str());
    classify_choice(t.as_str(), number)
}

fn digit_char(x: usize) -> (r: char)
    requires
        x < 7,
    ensures
        r == digit(x as int),
{
    if x == 0 {
        '0'
    } else if x == 1 {
        '1'
    } else if x == 2 {
        '2'
    } else if x == 3 {
        '3'
    } else if x == 4 {
        '4'
    } else if x == 5 {
        '5'
    } else {
        '6'
    }
}

fn symbol_char(c: Option<Player>) -> (r: char)
    ensures
        r == symbol(c),
{
    match c {
        Some(Player::X) => 'X',
        Some(Player::O) => 'O',
        None => ' ',
    }
}

impl Field {
    pub open spec fn wf(&self) -> bool {
        &&& self.cells_view().len() == 49
        &&& 0 <= self.last_view() < 7
    }

    pub closed spec fn cells_view(&self) -> Seq<Option<Player>> {
        self.cells@
    }

    pub closed spec fn last_view(&self) -> int {
        self.last_drop as int
    }

    /// An empty board.
    pub fn new() -> (r: Field)
        ensures
            r.wf(),
            r.cells_view().len() == 49,
            forall|i: int| 0 <= i < 49 ==> (#[trigger] r.cells_view()[i]) is None,
            r.last_view() == 0,
    {
        let mut cells: Vec<Option<Player>> = Vec::new();
        let mut i: usize = 0;
        while i < FIELD_SIZE * FIELD_SIZE
            invariant
                i <= 49,
                cells@.len() == i,
                forall|j: int| 0 <= j < i ==> (#[trigger] cells@[j]) is None,
            decreases 49 - i,
        {
            cells.push(None);
            i += 1;
        }
        Field { cells, last_drop: 0 }
    }

    /// Drops a piece of `player` into `column`: it lands on the lowest free
    /// cell, which becomes the last drop. A full column, or one off the board,
    /// leaves the board as it is.
    pub fn drop(&mut self, column: usize, player: Player)
        requires
            old(self).wf(),
        ensures
            final(self).wf(),
            match (if column < 7 { landing_row(old(self).cells_view(), column as int) } else { None }) {
                Some(y) => {
                    &&& final(self).cells_view() == old(self).cells_view().update(
                        idx(column as int, y),
                        Some(player),
                    )
                    &&& final(self).last_view() == column
                },
                None => {
                    &&& final(self).cells_view() == old(self).cells_view()
                    &&& final(self).last_view() == old(self).last_view()
                },
            },
    {
        if column < FIELD_SIZE {
            let ghost s = self.cells@;
            let mut y: usize = 0;
            while y < FIELD_SIZE
                invariant
                    y <= 7,
                    column < 7,
                    s == self.cells@,
                    s == old(self).cells@,
                    s.len() == 49,
                    self.last_drop == old(self).last_drop,
                    self.last_drop < 7,
                    forall|k: int| 0 <= k < y ==> (#[trigger] s[idx(column as int, k)]) is Some,
                decreases 7 - y,
            {
                if self.cells[column * FIELD_SIZE + y].is_none() {
                    proof {
                        assert(lowest_free(s, column as int, y as int));
                        assert forall|z: int| lowest_free(s, column as int, z) implies z == y by {
                            if z < y {
                                assert(s[idx(column as int, z)] is Some);
                            } else if z > y {
                                assert(s[idx(column as int, y as int)] is Some);
                            }
                        }
                        assert(landing_row(s, column as int) == Some(y as int));
                    }
                    self.cells.set(column * FIELD_SIZE + y, Some(player));
                    self.last_drop = column;
                    return;
                }
                y += 1;
            }
            assert(!exists|z: int| lowest_free(s, column as int, z));
        }
    }

    /// The computer's move: a piece of `O` dropped into the first column.
    pub fn auto_drop(&mut self)
        requires
            old(self).wf(),
        ensures
            final(self).wf(),
            match landing_row(old(self).cells_view(), 0) {
                Some(y) => {
                    &&& final(self).cells_view() == old(self).cells_view().update(
                        idx(0, y),
                        Some(Player::O),
                    )
                    &&& final(self).last_view() == 0
                },
                None => {
                    &&& final(self).cells_view() == old(self).cells_view()
                    &&& final(self).last_view() == old(self).last_view()
                },
            },
    {
        self.drop(0, Player::O);
    }

    /// The content of cell `(x, y)`.
    pub fn cell(&self, x: usize, y: usize) -> (r: Option<Player>)
        requires
            self.wf(),
            x < 7,
            y < 7,
        ensures
            r == self.cells_view()[idx(x as int, y as int)],
    {
        self.cells[x * FIELD_SIZE + y]
    }

    /// The column of the last drop.
    pub fn last_drop(&self) -> (r: usize)
        ensures
            r == self.last_view(),
    {
        self.last_drop
    }

    /// The board as the console shows it: a label for each column, `v` over
    /// the last drop, then each row from row 0, each from column 6 down to
    /// column 0, which is preceded by the separator.
    pub fn render(&self) -> (r: String)
        requires
            self.wf(),
        ensures
            r@ == render_spec(self.cells_view(), self.last_view()),
    {
        let ghost s = self.cells@;
        let ghost last = self.last_drop as int;
        let mut out: Vec<char> = Vec::new();
        let mut x: usize = 0;
        while x < FIELD_SIZE
            invariant
                x <= 7,
                self.wf(),
                last == self.last_drop,
                out@ == header(last, x as int),
            decreases 7 - x,
        {
            let ghost prev = out@;
            let c = if self.last_drop == x {
                'v'
            } else {
                digit_char(x)
            };
            out.push(c);
            out.push(' ');
            assert(out@ =~= prev + label(last, x as int));
            x += 1;
        }
        let mut y: usize = 0;
        while y < FIELD_SIZE
            invariant
                y <= 7,
                self.wf(),
                s == self.cells@,
                out@ == header(last, 7) + rows(s, y as int),
            decreases 7 - y,
        {
            let mut n: usize = 0;
            while n < FIELD_SIZE
                invariant
                    n <= 7,
                    y < 7,
                    self.wf(),
                    s == self.cells@,
                    out@ == header(last, 7) + rows(s, y as int) + row(s, y as int, n as int),
                decreases 7 - n,
            {
                let ghost prev = out@;
                let cx: usize = FIELD_SIZE - 1 - n;
                if cx == 0 {
                    out.push('\u{e2}');
                    out.push('\u{201d}');
                    out.push('\u{20ac}');
                }
                out.push(symbol_char(self.cells[cx * FIELD_SIZE + y]));
                out.push(' ');
                assert(out@ =~= prev + cell_text(s, cx as int, y as int));
                assert(out@ =~= header(last, 7) + rows(s, y as int) + row(s, y as int, n + 1));
                n += 1;
            }
            out.push('\n');
            assert(out@ =~= header(last, 7) + rows(s, y + 1));
            y += 1;
        }
        string_from_chars(out.as_slice())
    }
}

} // verus!
