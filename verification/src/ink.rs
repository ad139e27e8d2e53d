//! Ink painting: the closed box of fluid that the user paints into by touch,
//! its set-up and the per-frame decision of when to paint.
use vstd::prelude::*;

use crate::grid::{grid_bytes, threadgroup_count, Extent3d};
use crate::setup::{
    allocates, covering_groups, flat, floats_bytes, no_extent, Allocation, CollideStreamPlan,
    ComputePlan, RendererKind, RendererPlan, StorageBuffer,
};
use crate::shader::Shader;

verus! {

/// Side of the square brush texture, in lattice cells.
pub const BRUSH_SIZE: u32 = 16;

/// The brush stamp: the lattice cell under the touch, the lattice cell at the
/// top left corner of the brush (possibly outside the lattice) and the size
/// of the brush texture.
#[derive(Clone, Copy, Debug)]
pub struct TouchUniform {
    pub touch_point: [i32; 2],
    pub lt_lattice: [i32; 2],
    pub tex_size: [u32; 2],
}

/// The brush centred on lattice cell `(x, y)`.
pub open spec fn brush_at(x: int, y: int) -> TouchUniform {
    TouchUniform {
        touch_point: [x as i32, y as i32],
        lt_lattice: [(x - BRUSH_SIZE / 2) as i32, (y - BRUSH_SIZE / 2) as i32],
        tex_size: [BRUSH_SIZE, BRUSH_SIZE],
    }
}

/// Whether the brush can be centred on `(x, y)`: its corner must be a cell
/// index that fits in an `i32`.
pub open spec fn brush_fits(x: int, y: int) -> bool {
    x >= i32::MIN + BRUSH_SIZE / 2 && y >= i32::MIN + BRUSH_SIZE / 2
}

/// The brush stamp centred on lattice cell `(x, y)`.
pub fn touch_uniform_at(x: i32, y: i32) -> (touch: TouchUniform)
    requires
        brush_fits(x as int, y as int),
    ensures
        touch == brush_at(x as int, y as int),
{
    TouchUniform { touch_point: [x, y], lt_lattice: [x - 8, y - 8], tex_size: [16, 16] }
}

/// Where the brush is and whether it still has to be painted.
#[derive(Clone, Copy, Debug)]
pub struct InkInteraction {
    pub touch: TouchUniform,
    pub is_interacting: bool,
}

/// The state before any touch: the brush near the top left corner, waiting
/// to be painted.
pub open spec fn initial_interaction() -> InkInteraction {
    InkInteraction {
        touch: TouchUniform { touch_point: [9, 9], lt_lattice: [1, 1], tex_size: [16, 16] },
        is_interacting: true,
    }
}

/// The state after a touch at lattice cell `(x, y)`.
pub open spec fn after_touch(s: InkInteraction, x: int, y: int) -> InkInteraction {
    InkInteraction { touch: brush_at(x, y), is_interacting: true }
}

/// What a frame paints from state `s`: the brush, if it is waiting.
pub open spec fn frame_paint(s: InkInteraction) -> Option<TouchUniform> {
    if s.is_interacting {
        Some(s.touch)
    } else {
        None
    }
}

/// The state after a frame from state `s`.
pub open spec fn after_frame(s: InkInteraction) -> InkInteraction {
    InkInteraction { touch: s.touch, is_interacting: false }
}

impl InkInteraction {
    /// The state before any touch.
    pub fn new() -> (s: Self)
        ensures
            s == initial_interaction(),
    {
        InkInteraction {
            touch: TouchUniform { touch_point: [9, 9], lt_lattice: [1, 1], tex_size: [16, 16] },
            is_interacting: true,
        }
    }

    /// A touch landed on lattice cell `(x, y)`: the brush moves there and
    /// waits to be painted.
    pub fn touch_moved(&mut self, x: i32, y: i32)
        requires
            brush_fits(x as int, y as int),
        ensures
            *final(self) == after_touch(*old(self), x as int, y as int),
    {
        self.touch = touch_uniform_at(x, y);
        self.is_interacting = true;
    }

    /// Starts a frame: returns the brush to upload and paint, if one is
    /// waiting, and marks it painted.
    pub fn begin_frame(&mut self) -> (paint: Option<TouchUniform>)
        ensures
            paint == frame_paint(*old(self)),
            *final(self) == after_frame(*old(self)),
    {
        let paint = if self.is_interacting {
            Some(self.touch)
        } else {
            None
        };
        self.is_interacting = false;
        paint
    }
}

/// The brush is a 16 by 16 stamp whose top left corner lies 8 cells left of
/// and 8 cells above the touched cell.
pub proof fn lemma_brush_geometry(x: int, y: int)
    requires
        brush_fits(x, y),
        x <= i32::MAX,
        y <= i32::MAX,
    ensures
        brush_at(x, y).touch_point@ =~= seq![x as i32, y as i32],
        brush_at(x, y).touch_point[0] == x && brush_at(x, y).touch_point[1] == y,
        brush_at(x, y).lt_lattice[0] == x - 8 && brush_at(x, y).lt_lattice[1] == y - 8,
        brush_at(x, y).tex_size[0] == 16 && brush_at(x, y).tex_size[1] == 16,
{
}

/// A touch is painted by the very next frame, centred where it landed.
pub proof fn lemma_touch_painted_next_frame(s: InkInteraction, x: int, y: int)
    requires
        brush_fits(x, y),
    ensures
        frame_paint(after_touch(s, x, y)) == Some(brush_at(x, y)),
{
}

/// A brush is painted once: the frame after a frame paints nothing unless a
/// touch came in between.
pub proof fn lemma_painted_once(s: InkInteraction)
    ensures
        frame_paint(after_frame(s)) is None,
        after_frame(after_frame(s)) == after_frame(s),
{
}

/// How many of `n` frames, starting from state `s`, paint the brush.
pub open spec fn paints_in(s: InkInteraction, n: nat) -> nat
    decreases n,
{
    if n == 0 {
        0
    } else {
        (if frame_paint(s) is Some {
            1nat
        } else {
            0nat
        }) + paints_in(after_frame(s), (n - 1) as nat)
    }
}

/// Frames after a frame paint nothing until the next touch.
pub proof fn lemma_no_paint_after_frame(s: InkInteraction, n: nat)
    ensures
        paints_in(after_frame(s), n) == 0,
    decreases n,
{
    if n > 0 {
        lemma_no_paint_after_frame(after_frame(s), (n - 1) as nat);
    }
}

/// Of any `n >= 1` frames after a touch, with no touch in between, exactly
/// one paints the brush: the first.
pub proof fn lemma_touch_painted_once(s: InkInteraction, x: int, y: int, n: nat)
    requires
        n >= 1,
    ensures
        paints_in(after_touch(s, x, y), n) == 1,
        frame_paint(after_touch(s, x, y)) == Some(brush_at(x, y)),
{
    lemma_no_paint_after_frame(after_touch(s, x, y), (n - 1) as nat);
}

/// The first frame paints the initial brush.
pub proof fn lemma_first_frame_paints()
    ensures
        frame_paint(initial_interaction()) == Some(initial_interaction().touch),
{
}

/// The initial brush is the brush centred on cell `(9, 9)`.
pub proof fn lemma_initial_brush_centred()
    ensures
        initial_interaction().touch == brush_at(9, 9),
{
}

/// Sizes, buffers and passes of ink painting.
pub struct InkSetup {
    pub lattice: Extent3d,
    pub particle: Extent3d,
    pub threadgroup_count: (u32, u32),
    /// Workgroups of the painting pass: one brush-sized tile.
    pub interact_threadgroup_count: (u32, u32),
    pub scalar_lattice_bytes: u64,
    /// The buffers to create, in creation order.
    pub allocations: Vec<Allocation>,
    pub interact: ComputePlan,
    pub collide_stream: CollideStreamPlan,
    pub renderer: RendererPlan,
    pub init: ComputePlan,
}

/// The buffers that every pass of ink painting binds, in binding order.
pub open spec fn ink_buffers() -> Seq<StorageBuffer> {
    seq![
        StorageBuffer::Lattice,
        StorageBuffer::TempScalar,
        StorageBuffer::Info,
        StorageBuffer::Macro,
        StorageBuffer::DiffuseScalar,
    ]
}

/// The buffers of ink painting and their sizes, given the bytes of one float
/// per cell.
pub open spec fn ink_allocations(scalar: int) -> Seq<(StorageBuffer, int)> {
    seq![
        (StorageBuffer::Lattice, scalar * 9),
        (StorageBuffer::Info, scalar * 4),
        (StorageBuffer::DiffuseScalar, scalar),
        (StorageBuffer::TempScalar, scalar),
        (StorageBuffer::Macro, scalar * 4),
    ]
}

fn ink_buffer_list() -> (buffers: Vec<StorageBuffer>)
    ensures
        buffers@ == ink_buffers(),
{
    let buffers = vec![
        StorageBuffer::Lattice,
        StorageBuffer::TempScalar,
        StorageBuffer::Info,
        StorageBuffer::Macro,
        StorageBuffer::DiffuseScalar,
    ];
    assert(buffers@ == ink_buffers());
    buffers
}

/// The set-up of ink painting on a 200 by 150 lattice.
pub fn ink_setup() -> (setup: InkSetup)
    ensures
        setup.lattice == flat(200, 150),
        setup.particle == no_extent(),
        setup.threadgroup_count == covering_groups(setup.lattice),
        setup.interact_threadgroup_count == (BRUSH_SIZE, BRUSH_SIZE),
        setup.scalar_lattice_bytes == floats_bytes(setup.lattice, 1),
        allocates(setup.allocations@, ink_allocations(setup.scalar_lattice_bytes as int)),
        setup.interact.shader == Shader::InkInteract,
        setup.interact.buffers@ == ink_buffers(),
        setup.collide_stream.collide == Shader::InkCollide,
        setup.collide_stream.stream == Shader::InkStream,
        setup.collide_stream.buffers@ == ink_buffers(),
        setup.renderer.kind == RendererKind::PigmentDiffuse,
        setup.renderer.buffers@ == seq![StorageBuffer::Macro, StorageBuffer::DiffuseScalar],
        setup.init.shader == Shader::InkInit,
        setup.init.buffers@ == ink_buffers(),
{
    let lattice = Extent3d { width: 200, height: 150, depth: 1 };
    let scalar: u64 = grid_bytes(lattice.width, lattice.height, 4);
    let allocations = vec![
        Allocation { buffer: StorageBuffer::Lattice, bytes: scalar * 9 },
        Allocation { buffer: StorageBuffer::Info, bytes: scalar * 4 },
        Allocation { buffer: StorageBuffer::DiffuseScalar, bytes: scalar },
        Allocation { buffer: StorageBuffer::TempScalar, bytes: scalar },
        Allocation { buffer: StorageBuffer::Macro, bytes: scalar * 4 },
    ];
    let renderer = RendererPlan {
        kind: RendererKind::PigmentDiffuse,
        buffers: vec![StorageBuffer::Macro, StorageBuffer::DiffuseScalar],
    };
    assert(renderer.buffers@ == seq![StorageBuffer::Macro, StorageBuffer::DiffuseScalar]);
    InkSetup {
        lattice,
        particle: Extent3d { width: 0, height: 0, depth: 0 },
        threadgroup_count: threadgroup_count(lattice.width, lattice.height),
        interact_threadgroup_count: (16, 16),
        scalar_lattice_bytes: scalar,
        allocations,
        interact: ComputePlan { shader: Shader::InkInteract, buffers: ink_buffer_list() },
        collide_stream: CollideStreamPlan {
            collide: Shader::InkCollide,
            stream: Shader::InkStream,
            buffers: ink_buffer_list(),
        },
        renderer,
        init: ComputePlan { shader: Shader::InkInit, buffers: ink_buffer_list() },
    }
}

} // verus!
