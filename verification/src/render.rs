use vstd::prelude::*;

use crate::state::GameState;

verus! {

/// Initial window width in logical units.
pub const SCREEN_WIDTH: i64 = 950;

/// Initial window height in logical units.
pub const SCREEN_HEIGHT: i64 = 530;

/// Inset of the board from every window edge, in logical units.
pub const PADDING: i64 = 25;

/// Side of one grid cell, in logical units.
pub const CELL_SIZE: i64 = 11;

/// Number of grid columns on the board.
pub const GRID_WIDTH: i64 = 82;

/// Number of grid rows on the board.
pub const GRID_HEIGHT: i64 = 43;

/// Colour the frame is cleared to, as 0xRRGGBB.
pub const CLEAR_COLOR: u32 = 0xCED6B5;

/// Colour of the background grid cells, as 0xRRGGBB.
pub const BACKGROUND_COLOR: u32 = 0xB9C0A3;

/// Colour of the snake's trail cells, as 0xRRGGBB.
pub const SNAKE_COLOR: u32 = 0x000000;

/// The two layers of a cell glyph: a 10 by 10 outlined square, and a
/// 6 by 6 filled square drawn two units in from the outline's corner.
#[derive(Clone, Copy, Debug, PartialEq, Eq, Structural)]
pub enum Layer {
    Outline,
    Inner,
}

/// One drawing instruction for the driver: clear the frame to a colour,
/// or draw one layer of a cell glyph with its top-left corner at
/// (`x`, `y`) in logical units.
#[derive(Clone, Copy, Debug, PartialEq, Eq, Structural)]
pub enum DrawCommand {
    Clear { color: u32 },
    Glyph { layer: Layer, x: i64, y: i64, color: u32 },
}

/// Largest magnitude a grid coordinate may have for the pixel arithmetic
/// `coordinate * CELL_SIZE + PADDING + 2` to stay within `i64`.
pub const MAX_CELL_COORD: i64 = 838_488_366_986_797_798;

/// Every coordinate of `s` is small enough to be placed on screen
/// without the pixel arithmetic overflowing.
pub open spec fn renderable(s: Seq<i64>) -> bool {
    forall|i: int|
        0 <= i < s.len() ==> -MAX_CELL_COORD <= #[trigger] s[i] && s[i] <= MAX_CELL_COORD
}

/// One layer of a cell glyph with its top-left corner at (`x`, `y`).
pub open spec fn glyph(layer: Layer, x: int, y: int, color: u32) -> DrawCommand {
    DrawCommand::Glyph { layer, x: x as i64, y: y as i64, color }
}

/// Both layers of one cell glyph at (`x`, `y`): the outline first, then
/// the inner fill two units in from the outline's corner.
pub open spec fn glyph_pair(x: int, y: int, color: u32) -> Seq<DrawCommand> {
    seq![glyph(Layer::Outline, x, y, color), glyph(Layer::Inner, x + 2, y + 2, color)]
}

/// The board background: a cell glyph for every grid cell, column by
/// column and row by row within a column, each cell at
/// `(PADDING + column * CELL_SIZE, PADDING + row * CELL_SIZE)`.
pub open spec fn background_spec() -> Seq<DrawCommand> {
    Seq::new(
        (GRID_WIDTH * GRID_HEIGHT * 2) as nat,
        |m: int|
            {
                let p = m / 2;
                let c = p / (GRID_HEIGHT as int);
                let r = p % (GRID_HEIGHT as int);
                glyph_pair(PADDING + c * CELL_SIZE, PADDING + r * CELL_SIZE, BACKGROUND_COLOR)[m
                    % 2]
            },
    )
}

/// Screen position of grid coordinate `v`, in logical units.
pub open spec fn snake_px(v: i64) -> int {
    v * CELL_SIZE + PADDING
}

/// The snake overlay: a cell glyph for every body segment, in body order.
pub open spec fn snake_spec(xs: Seq<i64>, ys: Seq<i64>) -> Seq<DrawCommand> {
    Seq::new(
        2 * xs.len(),
        |m: int|
            {
                let p = m / 2;
                glyph_pair(snake_px(xs[p]), snake_px(ys[p]), SNAKE_COLOR)[m % 2]
            },
    )
}

/// One whole frame: clear the screen, draw the background grid, then
/// overlay every body segment. A function of the body alone.
pub open spec fn frame_spec(xs: Seq<i64>, ys: Seq<i64>) -> Seq<DrawCommand> {
    seq![DrawCommand::Clear { color: CLEAR_COLOR }] + background_spec() + snake_spec(xs, ys)
}

proof fn lemma_bg_cell(c: int, r: int)
    requires
        0 <= c < GRID_WIDTH,
        0 <= r < GRID_HEIGHT,
    ensures
        0 <= c * (GRID_HEIGHT as int) + r < GRID_WIDTH * GRID_HEIGHT,
        background_spec()[2 * (c * (GRID_HEIGHT as int) + r)] == glyph(
            Layer::Outline,
            PADDING + c * CELL_SIZE,
            PADDING + r * CELL_SIZE,
            BACKGROUND_COLOR,
        ),
        background_spec()[2 * (c * (GRID_HEIGHT as int) + r) + 1] == glyph(
            Layer::Inner,
            PADDING + c * CELL_SIZE + 2,
            PADDING + r * CELL_SIZE + 2,
            BACKGROUND_COLOR,
        ),
{
    let h = GRID_HEIGHT as int;
    let k = c * h + r;
    assert(c * h <= 81 * h) by (nonlinear_arith)
        requires
            c <= 81,
            h >= 0,
    ;
    assert(0 <= c * h) by (nonlinear_arith)
        requires
            0 <= c,
            0 <= h,
    ;
    vstd::arithmetic::div_mod::lemma_fundamental_div_mod_converse(k, h, c, r);
    vstd::arithmetic::div_mod::lemma_fundamental_div_mod_converse(2 * k, 2, k, 0);
    vstd::arithmetic::div_mod::lemma_fundamental_div_mod_converse(2 * k + 1, 2, k, 1);
}

proof fn lemma_snake_cell(xs: Seq<i64>, ys: Seq<i64>, p: int)
    requires
        xs.len() == ys.len(),
        0 <= p < xs.len(),
    ensures
        snake_spec(xs, ys)[2 * p] == glyph(
            Layer::Outline,
            snake_px(xs[p]),
            snake_px(ys[p]),
            SNAKE_COLOR,
        ),
        snake_spec(xs, ys)[2 * p + 1] == glyph(
            Layer::Inner,
            snake_px(xs[p]) + 2,
            snake_px(ys[p]) + 2,
            SNAKE_COLOR,
        ),
{
    vstd::arithmetic::div_mod::lemma_fundamental_div_mod_converse(2 * p, 2, p, 0);
    vstd::arithmetic::div_mod::lemma_fundamental_div_mod_converse(2 * p + 1, 2, p, 1);
}

/// Commands for the board background: the two-layer glyph of every grid
/// cell, in a background colour, column by column.
pub fn background_commands() -> (out: Vec<DrawCommand>)
    ensures
        out@ == background_spec(),
{
    let mut out: Vec<DrawCommand> = Vec::new();
    let mut c: i64 = 0;
    while c < GRID_WIDTH
        invariant
            0 <= c <= GRID_WIDTH,
            out@ == background_spec().take(2 * c * (GRID_HEIGHT as int)),
        decreases GRID_WIDTH - c,
    {
        let x: i64 = PADDING + c * CELL_SIZE;
        let mut r: i64 = 0;
        while r < GRID_HEIGHT
            invariant
                0 <= r <= GRID_HEIGHT,
                0 <= c < GRID_WIDTH,
                x == PADDING + c * CELL_SIZE,
                out@ == background_spec().take(2 * (c * (GRID_HEIGHT as int) + r)),
            decreases GRID_HEIGHT - r,
        {
            let y: i64 = PADDING + r * CELL_SIZE;
            out.push(
                DrawCommand::Glyph { layer: Layer::Outline, x, y, color: BACKGROUND_COLOR },
            );
            out.push(
                DrawCommand::Glyph {
                    layer: Layer::Inner,
                    x: x + 2,
                    y: y + 2,
                    color: BACKGROUND_COLOR,
                },
            );
            proof {
                lemma_bg_cell(c as int, r as int);
                assert(out@ =~= background_spec().take(
                    2 * (c as int * (GRID_HEIGHT as int) + (r as int + 1)),
                ));
            }
            r = r + 1;
        }
        proof {
            assert((c as int + 1) * (GRID_HEIGHT as int) == c as int * (GRID_HEIGHT as int)
                + GRID_HEIGHT as int) by (nonlinear_arith);
            assert(2 * (c as int + 1) * (GRID_HEIGHT as int) == 2 * (c as int * (GRID_HEIGHT
                as int) + GRID_HEIGHT as int)) by (nonlinear_arith);
        }
        c = c + 1;
    }
    proof {
        assert(out@ =~= background_spec());
    }
    out
}

/// Commands for the snake overlay: the two-layer glyph of every body
/// segment, in the snake colour, in body order.
pub fn snake_commands(xs: &Vec<i64>, ys: &Vec<i64>) -> (out: Vec<DrawCommand>)
    requires
        xs@.len() == ys@.len(),
        renderable(xs@),
        renderable(ys@),
    ensures
        out@ == snake_spec(xs@, ys@),
{
    let mut out: Vec<DrawCommand> = Vec::new();
    let mut n: usize = 0;
    while n < xs.len()
        invariant
            xs@.len() == ys@.len(),
            0 <= n <= xs@.len(),
            renderable(xs@),
            renderable(ys@),
            out@ == snake_spec(xs@, ys@).take(2 * n),
        decreases xs@.len() - n,
    {
        let px: i64 = xs[n] * CELL_SIZE + PADDING;
        let py: i64 = ys[n] * CELL_SIZE + PADDING;
        out.push(DrawCommand::Glyph { layer: Layer::Outline, x: px, y: py, color: SNAKE_COLOR });
        out.push(
            DrawCommand::Glyph { layer: Layer::Inner, x: px + 2, y: py + 2, color: SNAKE_COLOR },
        );
        proof {
            lemma_snake_cell(xs@, ys@, n as int);
            assert(out@ =~= snake_spec(xs@, ys@).take(2 * (n as int + 1)));
        }
        n = n + 1;
    }
    proof {
        assert(out@ =~= snake_spec(xs@, ys@));
    }
    out
}

impl GameState {
    /// Commands for one whole frame of the current state: clear, the
    /// background grid, then the trail overlay. A pure projection — the
    /// commands are a function of the body alone, the state is only read,
    /// and rendering it again yields the same commands.
    pub fn render(&self) -> (out: Vec<DrawCommand>)
        requires
            self.wf(),
            renderable(self.snake_pos_x@),
            renderable(self.snake_pos_y@),
        ensures
            out@ == frame_spec(self.snake_pos_x@, self.snake_pos_y@),
    {
        let mut out: Vec<DrawCommand> = Vec::new();
        out.push(DrawCommand::Clear { color: CLEAR_COLOR });
        let mut bg = background_commands();
        out.append(&mut bg);
        let mut snake = snake_commands(&self.snake_pos_x, &self.snake_pos_y);
        out.append(&mut snake);
        proof {
            assert(out@ =~= frame_spec(self.snake_pos_x@, self.snake_pos_y@));
        }
        out
    }
}

/// Law: rendering is a pure projection of the body. Two states whose
/// bodies are equal render to identical command sequences, whatever their
/// heading or score.
pub proof fn lemma_render_depends_only_on_body(a: GameState, b: GameState)
    requires
        a.snake_pos_x@ == b.snake_pos_x@,
        a.snake_pos_y@ == b.snake_pos_y@,
    ensures
        frame_spec(a.snake_pos_x@, a.snake_pos_y@) == frame_spec(b.snake_pos_x@, b.snake_pos_y@),
{
}

} // verus!
