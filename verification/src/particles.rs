//! The particle trajectory renderer: particle vertex ids and the sizes of
//! its buffers and passes.
use vstd::prelude::*;

use crate::grid::{cell_count, grid_bytes, groups_to_cover, threadgroup_count, Extent3d};

verus! {

/// Bytes of one particle: position, initial position, life time and fade.
pub const PARTICLE_BYTES: u32 = 24;

/// Bytes of one canvas pixel: alpha, speed and density.
pub const PIXEL_INFO_BYTES: u32 = 12;

/// The id of the particle in column `x`, row `y` of a grid `width` wide: its
/// row-major index.
pub open spec fn particle_id(x: int, y: int, width: int) -> int {
    y * width + x
}

/// The vertex data of a `num.width` by `num.height` particle grid, column by
/// column: entry `x * height + y` holds the row-major id of particle
/// `(x, y)`, as an `i32`.
pub fn particle_vertex_data(num: Extent3d) -> (ids: Vec<i32>)
    requires
        num.width * num.height <= usize::MAX,
        num.width * num.height <= u32::MAX + 1,
    ensures
        ids.len() == num.width * num.height,
        forall|x: int, y: int|
            0 <= x < num.width && 0 <= y < num.height ==> #[trigger] ids@[x * num.height + y]
                == particle_id(x, y, num.width as int) as i32,
{
    let w = num.width;
    let h = num.height;
    let mut ids: Vec<i32> = Vec::new();
    let mut x: u32 = 0;
    while x < w
        invariant
            x <= w,
            w == num.width,
            h == num.height,
            w * h <= usize::MAX,
            w * h <= u32::MAX + 1,
            ids.len() == x * h,
            forall|a: int, b: int|
                0 <= a < x && 0 <= b < h ==> #[trigger] ids@[a * h + b] == particle_id(
                    a,
                    b,
                    w as int,
                ) as i32,
        decreases w - x,
    {
        let mut y: u32 = 0;
        while y < h
            invariant
                y <= h,
                x < w,
                w == num.width,
                h == num.height,
                w * h <= usize::MAX,
                w * h <= u32::MAX + 1,
                ids.len() == x * h + y,
                forall|a: int, b: int|
                    0 <= a < x && 0 <= b < h ==> #[trigger] ids@[a * h + b] == particle_id(
                        a,
                        b,
                        w as int,
                    ) as i32,
                forall|b: int|
                    0 <= b < y ==> #[trigger] ids@[x * h + b] == particle_id(
                        x as int,
                        b,
                        w as int,
                    ) as i32,
            decreases h - y,
        {
            proof {
                lemma_id_in_grid(x as int, y as int, w as int, h as int);
                lemma_slot_in_grid(x as int, y as int, h as int, w as int);
            }
            let id: u32 = y * w + x;
            let ghost before = ids@;
            ids.push(id as i32);
            proof {
                assert forall|a: int, b: int|
                    0 <= a < x && 0 <= b < h implies #[trigger] ids@[a * h + b] == particle_id(
                    a,
                    b,
                    w as int,
                ) as i32 by {
                    lemma_slot_in_grid(a, b, h as int, x as int);
                    assert(ids@[a * h + b] == before[a * h + b]);
                }
                assert forall|b: int|
                    0 <= b < y + 1 implies #[trigger] ids@[x * h + b] == particle_id(
                    x as int,
                    b,
                    w as int,
                ) as i32 by {
                    if b < y {
                        assert(ids@[x * h + b] == before[x * h + b]);
                    }
                }
            }
            y = y + 1;
        }
        proof {
            assert((x + 1) * h == x * h + h) by (nonlinear_arith);
        }
        x = x + 1;
    }
    proof {
        assert(w * h == num.width * num.height);
    }
    ids
}

/// Slot `x * h + y` of column-major storage lies before the end of column
/// `x` and of the first `cols` columns.
proof fn lemma_slot_in_grid(x: int, y: int, h: int, cols: int)
    requires
        0 <= x < cols,
        0 <= y < h,
    ensures
        0 <= x * h + y < x * h + h,
        x * h + h <= cols * h,
{
    assert(x * h + h == (x + 1) * h) by (nonlinear_arith);
    assert((x + 1) * h <= cols * h) by (nonlinear_arith)
        requires
            x + 1 <= cols,
            h > 0,
    ;
    assert(0 <= x * h) by (nonlinear_arith)
        requires
            0 <= x,
            0 <= h,
    ;
}

/// The id of a particle of a `w` by `h` grid is below `w * h`.
proof fn lemma_id_in_grid(x: int, y: int, w: int, h: int)
    requires
        0 <= x < w,
        0 <= y < h,
    ensures
        0 <= particle_id(x, y, w) < w * h,
{
    assert(y * w + x < (y + 1) * w) by (nonlinear_arith)
        requires
            x < w,
    ;
    assert((y + 1) * w <= h * w) by (nonlinear_arith)
        requires
            y + 1 <= h,
            0 < w,
    ;
    assert(h * w == w * h) by (nonlinear_arith);
    assert(0 <= y * w) by (nonlinear_arith)
        requires
            0 <= y,
            0 <= w,
    ;
}

/// `id` is the id of the particle in column `id % w`, row `id / w` of a `w`
/// by `h` grid.
pub open spec fn id_of_cell(id: int, w: int, h: int) -> bool {
    &&& 0 <= id % w < w
    &&& 0 <= id / w < h
    &&& particle_id(id % w, id / w, w) == id
}

/// Particle ids number the grid one to one: every particle's id is below
/// `w * h`, no two particles share an id, and every id below `w * h` belongs
/// to a particle.
pub proof fn lemma_particle_ids_are_a_numbering(w: int, h: int)
    requires
        0 < w,
        0 <= h,
    ensures
        forall|x: int, y: int|
            0 <= x < w && 0 <= y < h ==> 0 <= #[trigger] particle_id(x, y, w) < w * h,
        forall|x1: int, y1: int, x2: int, y2: int|
            0 <= x1 < w && 0 <= y1 < h && 0 <= x2 < w && 0 <= y2 < h && #[trigger] particle_id(
                x1,
                y1,
                w,
            ) == #[trigger] particle_id(x2, y2, w) ==> x1 == x2 && y1 == y2,
        forall|id: int| 0 <= id < w * h ==> #[trigger] id_of_cell(id, w, h),
{
    assert forall|x: int, y: int| 0 <= x < w && 0 <= y < h implies 0 <= #[trigger] particle_id(
        x,
        y,
        w,
    ) < w * h by {
        lemma_id_in_grid(x, y, w, h);
    }
    assert forall|x1: int, y1: int, x2: int, y2: int|
        0 <= x1 < w && 0 <= y1 < h && 0 <= x2 < w && 0 <= y2 < h && #[trigger] particle_id(
            x1,
            y1,
            w,
        ) == #[trigger] particle_id(x2, y2, w) implies x1 == x2 && y1 == y2 by {
        let id = particle_id(x1, y1, w);
        vstd::arithmetic::div_mod::lemma_fundamental_div_mod_converse(id, w, y1, x1);
        vstd::arithmetic::div_mod::lemma_fundamental_div_mod_converse(id, w, y2, x2);
    }
    assert forall|id: int| 0 <= id < w * h implies #[trigger] id_of_cell(id, w, h) by {
        vstd::arithmetic::div_mod::lemma_fundamental_div_mod(id, w);
        vstd::arithmetic::div_mod::lemma_mod_bound(id, w);
        vstd::arithmetic::div_mod::lemma_div_pos_is_pos(id, w);
        assert(id / w < h) by {
            vstd::arithmetic::div_mod::lemma_div_is_ordered(id, w * h - 1, w);
            assert(w * h - 1 == (h - 1) * w + (w - 1)) by (nonlinear_arith);
            vstd::arithmetic::div_mod::lemma_fundamental_div_mod_converse(
                w * h - 1,
                w,
                h - 1,
                w - 1,
            );
        }
        assert(particle_id(id % w, id / w, w) == (id / w) * w + id % w);
        assert((id / w) * w == w * (id / w)) by (nonlinear_arith);
    }
}

/// Sizes of the buffers and passes of the trajectory renderer.
#[derive(Clone, Copy, Debug)]
pub struct ParticleRenderSetup {
    /// Bytes of the canvas of pixel infos.
    pub canvas_bytes: u64,
    /// Bytes of the particle buffer.
    pub particle_bytes: u64,
    /// Workgroups of the particle pass.
    pub particle_threadgroup_count: (u32, u32),
    /// Workgroups of the fade pass over the canvas.
    pub fade_threadgroup_count: (u32, u32),
}

/// The sizes of the trajectory renderer of `particle` particles drawn on a
/// `canvas_width` by `canvas_height` canvas.
pub fn particle_render_setup(canvas_width: u32, canvas_height: u32, particle: Extent3d) -> (setup:
    ParticleRenderSetup)
    requires
        canvas_width * canvas_height * PIXEL_INFO_BYTES <= u32::MAX,
        particle.width * particle.height * PARTICLE_BYTES <= u32::MAX,
        canvas_width + 15 <= u32::MAX,
        canvas_height + 15 <= u32::MAX,
        particle.width + 15 <= u32::MAX,
        particle.height + 15 <= u32::MAX,
    ensures
        setup.canvas_bytes == cell_count(canvas_width as int, canvas_height as int)
            * PIXEL_INFO_BYTES,
        setup.particle_bytes == cell_count(particle.width as int, particle.height as int)
            * PARTICLE_BYTES,
        setup.particle_threadgroup_count == (
            groups_to_cover(particle.width as int) as u32,
            groups_to_cover(particle.height as int) as u32,
        ),
        setup.fade_threadgroup_count == (
            groups_to_cover(canvas_width as int) as u32,
            groups_to_cover(canvas_height as int) as u32,
        ),
{
    ParticleRenderSetup {
        canvas_bytes: grid_bytes(canvas_width, canvas_height, 12),
        particle_bytes: grid_bytes(particle.width, particle.height, 24),
        particle_threadgroup_count: threadgroup_count(particle.width, particle.height),
        fade_threadgroup_count: threadgroup_count(canvas_width, canvas_height),
    }
}

} // verus!
