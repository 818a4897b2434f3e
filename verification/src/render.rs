//! The renderable projection: a pure, deterministic function from the
//! simulation state to the symbol of every grid cell, the sole interface a
//! presentation layer needs.

use vstd::prelude::*;

use crate::game::SnakeGame;
use crate::geometry::Vector;

verus! {

/// Symbol painted on the snake's head cell.
pub const HEAD_SYMBOL: char = '\u{1F7E8}';

/// Symbol painted on every other snake cell.
pub const BODY_SYMBOL: char = '\u{2B1B}';

/// Symbol of a cell with nothing on it.
pub const BLANK_SYMBOL: char = ' ';

/// A cell of a row strictly above row `y` has a row-major index strictly
/// below the start of row `y`.
proof fn lemma_row_index_bound(xx: int, yy: int, w: int, y: int)
    requires
        0 <= xx < w,
        0 <= yy < y,
    ensures
        0 <= yy * w + xx < y * w,
{
    assert(0 <= yy * w + xx < y * w) by (nonlinear_arith)
        requires
            0 <= xx < w,
            0 <= yy < y,
    ;
}

impl SnakeGame {
    /// The symbol for cell `(x, y)`: the head symbol on the head, the body
    /// symbol on other snake cells, a food's assigned icon on its cell, and
    /// the blank symbol everywhere else.
    pub open spec fn cell_symbol(self, x: int, y: int) -> char {
        let v = Vector(x as isize, y as isize);
        if self.snake@[0] == v {
            HEAD_SYMBOL
        } else if self.snake_has(v) {
            BODY_SYMBOL
        } else if self.food_at(v) {
            self.food_icons@[self.food_index(v)]
        } else {
            BLANK_SYMBOL
        }
    }

    /// The renderable snapshot: one symbol per grid cell in row-major order,
    /// row `y` occupying indices `[y * width, (y + 1) * width)`. It reads the
    /// state without changing it, and may be taken at any time, the terminal
    /// state included.
    pub fn renderer_data(&self) -> (r: Vec<char>)
        requires
            self.wf(),
        ensures
            r@.len() == self.width * self.height,
            forall|x: int, y: int|
                0 <= x < self.width && 0 <= y < self.height
                    ==> r@[y * self.width + x] == #[trigger] self.cell_symbol(x, y),
    {
        let mut data: Vec<char> = Vec::new();
        let mut y: usize = 0;
        while y < self.height
            invariant
                self.wf(),
                y <= self.height,
                data@.len() == y * self.width,
                forall|xx: int, yy: int|
                    0 <= xx < self.width && 0 <= yy < y
                        ==> data@[yy * self.width + xx] == #[trigger] self.cell_symbol(xx, yy),
            decreases self.height - y,
        {
            let mut x: usize = 0;
            while x < self.width
                invariant
                    self.wf(),
                    y < self.height,
                    x <= self.width,
                    data@.len() == y * self.width + x,
                    forall|xx: int, yy: int|
                        0 <= xx < self.width && 0 <= yy < y
                            ==> data@[yy * self.width + xx] == #[trigger] self.cell_symbol(xx, yy),
                    forall|xx: int|
                        0 <= xx < x ==> data@[y * self.width + xx] == #[trigger] self.cell_symbol(
                            xx,
                            y as int,
                        ),
                decreases self.width - x,
            {
                let pos = Vector(x as isize, y as isize);
                let c: char;
                if self.snake[0] == pos {
                    c = HEAD_SYMBOL;
                } else if self.snake_contains(&pos) {
                    c = BODY_SYMBOL;
                } else {
                    match self.food_index_at(&pos) {
                        Some(i) => {
                            proof {
                                // foods never share a cell, so the index found
                                // is the unique one `food_index` denotes
                                assert(self.food_at(pos));
                                assert(i as int == self.food_index(pos));
                            }
                            c = self.food_icons[i];
                        },
                        None => {
                            c = BLANK_SYMBOL;
                        },
                    }
                }
                data.push(c);
                proof {
                    assert forall|xx: int, yy: int|
                        0 <= xx < self.width && 0 <= yy < y implies data@[yy * self.width + xx]
                        == self.cell_symbol(xx, yy) by {
                        lemma_row_index_bound(xx, yy, self.width as int, y as int);
                    };
                }
                x += 1;
            }
            proof {
                assert((y + 1) * self.width == y * self.width + self.width) by (nonlinear_arith);
            }
            y += 1;
        }
        proof {
            assert(self.height * self.width == self.width * self.height) by (nonlinear_arith);
        }
        data
    }
}

} // verus!
