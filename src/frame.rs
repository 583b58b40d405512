use vstd::prelude::*;

verus! {

/// The input and window events seen at the start of a frame.
#[derive(Clone, Copy, Debug, PartialEq, Eq, Structural)]
pub struct FrameInput {
    /// The reset key went down this frame.
    pub reset_pressed: bool,
    /// The background toggle key went down this frame.
    pub toggle_pressed: bool,
    /// The window changed size since the last frame.
    pub resized: bool,
}

/// What a frame must do before it simulates.
#[derive(Clone, Copy, Debug, PartialEq, Eq, Structural)]
pub struct FrameOrders {
    /// Replace every ball by a fresh batch and put the player back at its spawn.
    pub respawn: bool,
    /// Whether the background grid is shown from this frame on.
    pub show_background: bool,
    /// Read the world dimensions from the window again.
    pub refresh_screen: bool,
}

/// Decides the frame's housekeeping from its events and whether the grid was shown.
pub fn react(show_background: bool, input: FrameInput) -> (r: FrameOrders)
    ensures
        r.respawn == input.reset_pressed,
        r.show_background == (show_background != input.toggle_pressed),
        r.refresh_screen == input.resized,
{
    FrameOrders {
        respawn: input.reset_pressed,
        show_background: if input.toggle_pressed {
            !show_background
        } else {
            show_background
        },
        refresh_screen: input.resized,
    }
}

/// The cells of a `cols` by `rows` background grid, row by row: entry `i` is
/// column `i % cols` of row `i / cols`.
pub fn grid_cells(cols: u32, rows: u32) -> (r: Vec<(u32, u32)>)
    ensures
        r@.len() == cols * rows,
        forall|i: int|
            0 <= i < r@.len() ==> #[trigger] r@[i].0 as int == i % (cols as int) && r@[i].1 as int
                == i / (cols as int),
{
    assert(cols * rows <= u32::MAX * u32::MAX) by (nonlinear_arith)
        requires
            cols <= u32::MAX,
            rows <= u32::MAX,
    ;
    let total: u64 = cols as u64 * rows as u64;
    let mut cells: Vec<(u32, u32)> = Vec::new();
    let mut i: u64 = 0;
    while i < total
        invariant
            total == cols * rows,
            i <= total,
            cells@.len() == i,
            forall|k: int|
                0 <= k < i ==> #[trigger] cells@[k].0 as int == k % (cols as int) && cells@[k].1 as int
                    == k / (cols as int),
        decreases total - i,
    {
        assert(cols > 0) by (nonlinear_arith)
            requires
                i < total,
                total == cols * rows,
        ;
        assert(i / (cols as u64) < rows) by (nonlinear_arith)
            requires
                i < total,
                total == cols * rows,
                cols > 0,
        ;
        let cell = ((i % cols as u64) as u32, (i / cols as u64) as u32);
        cells.push(cell);
        i += 1;
    }
    cells
}

} // verus!
