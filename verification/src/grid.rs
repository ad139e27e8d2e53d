//! Sizes of the GPU work over a lattice: workgroup counts and buffer bytes.
use vstd::prelude::*;

verus! {

/// Width, height and depth of a lattice, a particle grid or a canvas.
#[derive(Clone, Copy, PartialEq, Eq, Structural, Debug)]
pub struct Extent3d {
    pub width: u32,
    pub height: u32,
    pub depth: u32,
}

/// Side of the square of invocations in one compute workgroup.
pub const WORKGROUP_SIDE: u32 = 16;

/// Bytes of one `f32`.
pub const FLOAT_BYTES: u32 = 4;

/// The number of workgroups of `WORKGROUP_SIDE` invocations needed to cover
/// `n` cells: `n / 16` rounded up.
pub open spec fn groups_to_cover(n: int) -> int {
    (n + WORKGROUP_SIDE - 1) / WORKGROUP_SIDE as int
}

/// The number of cells of a `width` by `height` grid.
pub open spec fn cell_count(width: int, height: int) -> int {
    width * height
}

/// Workgroup counts along x and y that cover a `width` by `height` grid.
pub fn threadgroup_count(width: u32, height: u32) -> (count: (u32, u32))
    requires
        width + 15 <= u32::MAX,
        height + 15 <= u32::MAX,
    ensures
        count.0 == groups_to_cover(width as int),
        count.1 == groups_to_cover(height as int),
        count.0 == (width + 15) / 16,
        count.1 == (height + 15) / 16,
{
    ((width + 15) / 16, (height + 15) / 16)
}

/// Bytes of a buffer that holds `bytes_per_cell` bytes for each cell of a
/// `width` by `height` grid; the product is formed in 32 bits.
pub fn grid_bytes(width: u32, height: u32, bytes_per_cell: u32) -> (bytes: u64)
    requires
        width * height <= u32::MAX,
        width * height * bytes_per_cell <= u32::MAX,
    ensures
        bytes == cell_count(width as int, height as int) * bytes_per_cell,
        bytes == width * height * bytes_per_cell,
{
    let cells: u32 = width * height;
    (cells * bytes_per_cell) as u64
}

/// The workgroups cover every cell, and no workgroup lies wholly outside the
/// grid: `16 * (groups - 1) < n <= 16 * groups`.
pub proof fn lemma_workgroups_cover(n: int)
    requires
        0 <= n,
    ensures
        n <= WORKGROUP_SIDE * groups_to_cover(n),
        n > 0 ==> WORKGROUP_SIDE * (groups_to_cover(n) - 1) < n,
        groups_to_cover(n) == 0 <==> n == 0,
{
}

} // verus!
