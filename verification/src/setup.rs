//! What each simulation sets up on the GPU before its first frame: lattice
//! and particle sizes, buffer sizes, and which buffers each pass binds with
//! which shader.
use vstd::prelude::*;

use crate::lattice::{grid_defined, lemma_grid_defined};
use crate::grid::{
    cell_count, grid_bytes, groups_to_cover, threadgroup_count, Extent3d, FLOAT_BYTES,
};
use crate::shader::Shader;
use crate::FlowType;

verus! {

/// Floats stored per lattice cell for the particle distributions.
pub const DISTRIBUTION_FLOATS: u32 = 9;

/// Floats stored per lattice cell for the macroscopic fluid state
/// (velocity, density and material).
pub const FLUID_FLOATS: u32 = 4;

/// The relaxation time of the collision of `flow_type`, in hundredths:
/// `1/2 + 3 * 1/100` for the lid-driven cavity (viscosity 0.01 on its
/// 100 by 100 lattice with lid speed 0.1), `0.83` for the other flows.
pub open spec fn relaxation_hundredths(flow_type: FlowType) -> int {
    if flow_type == FlowType::LidDrivenCavity {
        50int + 3 * 1
    } else {
        83
    }
}

/// The relaxation time of the collision of `flow_type`, in hundredths.
pub fn relaxation_time_hundredths(flow_type: FlowType) -> (tau: u32)
    ensures
        tau == relaxation_hundredths(flow_type),
{
    match flow_type {
        FlowType::LidDrivenCavity => 53,
        _ => 83,
    }
}

/// A storage buffer of the memory-optimised simulations.
#[derive(Clone, Copy, PartialEq, Eq, Structural, Debug)]
pub enum StorageBuffer {
    /// Particle distributions, nine floats per cell.
    Lattice,
    /// One scratch float per cell.
    TempScalar,
    /// Macroscopic velocity and density.
    Macro,
    /// Material and diffusion state of each cell.
    Info,
    /// Pigment distributions, nine floats per cell.
    Diffuse,
    /// Pigment concentration, one float per cell.
    DiffuseScalar,
}

/// A buffer to create and its size in bytes.
#[derive(Clone, Copy, PartialEq, Eq, Structural, Debug)]
pub struct Allocation {
    pub buffer: StorageBuffer,
    pub bytes: u64,
}

/// A compute pass: its shader and the storage buffers it binds, in binding
/// order.
pub struct ComputePlan {
    pub shader: Shader,
    pub buffers: Vec<StorageBuffer>,
}

/// A collide-and-stream pass: its two shaders and its storage buffers.
pub struct CollideStreamPlan {
    pub collide: Shader,
    pub stream: Shader,
    pub buffers: Vec<StorageBuffer>,
}

/// How particles or pigment are drawn.
#[derive(Clone, Copy, PartialEq, Eq, Structural, Debug)]
pub enum RendererKind {
    /// Particles advected by the flow, leaving fading trails.
    Trajectory,
    /// A colour map of the pigment concentration.
    PigmentDiffuse,
}

/// The renderer and the storage buffers it reads.
pub struct RendererPlan {
    pub kind: RendererKind,
    pub buffers: Vec<StorageBuffer>,
}

/// The passes that diffuse pigment alongside the flow.
pub struct DiffusePlan {
    pub collide_stream: CollideStreamPlan,
    pub boundary: ComputePlan,
}

/// An extent of one layer.
pub open spec fn flat(width: u32, height: u32) -> Extent3d {
    Extent3d { width, height, depth: 1 }
}

/// The empty extent.
pub open spec fn no_extent() -> Extent3d {
    Extent3d { width: 0, height: 0, depth: 0 }
}

/// The workgroup counts that cover `lattice`.
pub open spec fn covering_groups(lattice: Extent3d) -> (u32, u32) {
    (groups_to_cover(lattice.width as int) as u32, groups_to_cover(lattice.height as int) as u32)
}

/// Bytes of a buffer holding `floats` floats for each cell of `lattice`.
pub open spec fn floats_bytes(lattice: Extent3d, floats: int) -> int {
    cell_count(lattice.width as int, lattice.height as int) * floats * FLOAT_BYTES
}

// ---------------------------------------------------------------------------
// The two-buffer simulation
// ---------------------------------------------------------------------------

/// Sizes and shaders of the simulation that keeps the distributions of all
/// nine directions in two swapped buffers.
pub struct LbmSetup {
    pub lattice: Extent3d,
    pub particle: Extent3d,
    pub threadgroup_count: (u32, u32),
    /// Bytes of each of the two distribution buffers.
    pub lattice_bytes: u64,
    /// Bytes of the macroscopic fluid buffer.
    pub fluid_bytes: u64,
    pub stream_shader: Shader,
    pub collide_shader: Shader,
    pub init_shader: Shader,
    /// Whether a trajectory renderer exists for the flow; the simulation
    /// cannot be built without one.
    pub renders_trajectories: bool,
}

/// The lattice of the two-buffer simulation of `flow_type`.
pub open spec fn lbm_lattice(flow_type: FlowType) -> Extent3d {
    match flow_type {
        FlowType::LidDrivenCavity => flat(100, 100),
        _ => flat(200, 150),
    }
}

/// The trajectory particles of the two-buffer simulation of `flow_type`.
pub open spec fn lbm_particles(flow_type: FlowType) -> Extent3d {
    match flow_type {
        FlowType::Poiseuille => flat(100, 75),
        FlowType::LidDrivenCavity => flat(75, 50),
        _ => no_extent(),
    }
}

/// The set-up of the two-buffer simulation of `flow_type`; ink painting is
/// not one of its flows.
pub fn lbm_setup(flow_type: FlowType) -> (setup: LbmSetup)
    requires
        flow_type != FlowType::Ink,
    ensures
        setup.lattice == lbm_lattice(flow_type),
        setup.particle == lbm_particles(flow_type),
        setup.threadgroup_count == covering_groups(setup.lattice),
        setup.lattice_bytes == floats_bytes(setup.lattice, DISTRIBUTION_FLOATS as int),
        setup.fluid_bytes == floats_bytes(setup.lattice, FLUID_FLOATS as int),
        setup.stream_shader == (if flow_type == FlowType::LidDrivenCavity {
            Shader::LbmLidDrivenStream
        } else {
            Shader::LbmPoiseuilleStream
        }),
        setup.collide_shader == Shader::LbmCollide,
        setup.init_shader == Shader::LbmInit,
        setup.renders_trajectories <==> flow_type != FlowType::PigmentsDiffuse,
{
    let (lattice, particle) = match flow_type {
        FlowType::Poiseuille => (
            Extent3d { width: 200, height: 150, depth: 1 },
            Extent3d { width: 100, height: 75, depth: 1 },
        ),
        FlowType::LidDrivenCavity => (
            Extent3d { width: 100, height: 100, depth: 1 },
            Extent3d { width: 75, height: 50, depth: 1 },
        ),
        _ => (
            Extent3d { width: 200, height: 150, depth: 1 },
            Extent3d { width: 0, height: 0, depth: 0 },
        ),
    };
    let stream_shader = match flow_type {
        FlowType::LidDrivenCavity => Shader::LbmLidDrivenStream,
        _ => Shader::LbmPoiseuilleStream,
    };
    LbmSetup {
        lattice,
        particle,
        threadgroup_count: threadgroup_count(lattice.width, lattice.height),
        lattice_bytes: grid_bytes(lattice.width, lattice.height, 9 * 4),
        fluid_bytes: grid_bytes(lattice.width, lattice.height, 4 * 4),
        stream_shader,
        collide_shader: Shader::LbmCollide,
        init_shader: Shader::LbmInit,
        renders_trajectories: match flow_type {
            FlowType::PigmentsDiffuse => false,
            _ => true,
        },
    }
}

/// The lattice of every two-buffer simulation can be classified, so its
/// materials can be computed.
pub proof fn lemma_lbm_lattice_classifiable(flow_type: FlowType)
    ensures
        grid_defined(
            lbm_lattice(flow_type).width as int,
            lbm_lattice(flow_type).height as int,
            flow_type,
        ),
{
    lemma_grid_defined(
        lbm_lattice(flow_type).width as int,
        lbm_lattice(flow_type).height as int,
        flow_type,
    );
}

// ---------------------------------------------------------------------------
// The memory-optimised simulation
// ---------------------------------------------------------------------------

/// Sizes, buffers and passes of the simulation that streams one direction at
/// a time in a single distribution buffer.
pub struct OptimizedSetup {
    pub lattice: Extent3d,
    pub particle: Extent3d,
    pub threadgroup_count: (u32, u32),
    /// Bytes of one float per lattice cell.
    pub scalar_lattice_bytes: u64,
    /// The buffers to create, in creation order.
    pub allocations: Vec<Allocation>,
    pub boundary: ComputePlan,
    pub collide_stream: CollideStreamPlan,
    /// The pigment passes, for pigment diffusion only.
    pub diffuse: Option<DiffusePlan>,
    pub renderer: RendererPlan,
    pub init: ComputePlan,
}

/// The lattice of the memory-optimised simulation of `flow_type`; pigment
/// diffusion uses a wide lattice on macOS and a tall one elsewhere.
pub open spec fn optimized_lattice(flow_type: FlowType, is_macos: bool) -> Extent3d {
    match flow_type {
        FlowType::Poiseuille => flat(100, 75),
        FlowType::LidDrivenCavity => flat(100, 100),
        _ => if is_macos {
            flat(200, 150)
        } else {
            flat(150, 250)
        },
    }
}

/// The trajectory particles of the memory-optimised simulation.
pub open spec fn optimized_particles(flow_type: FlowType) -> Extent3d {
    match flow_type {
        FlowType::Poiseuille => flat(180, 120),
        FlowType::LidDrivenCavity => flat(75, 50),
        _ => no_extent(),
    }
}

/// The lattice of every memory-optimised simulation can be classified.
pub proof fn lemma_optimized_lattice_classifiable(flow_type: FlowType, is_macos: bool)
    ensures
        grid_defined(
            optimized_lattice(flow_type, is_macos).width as int,
            optimized_lattice(flow_type, is_macos).height as int,
            flow_type,
        ),
{
    lemma_grid_defined(
        optimized_lattice(flow_type, is_macos).width as int,
        optimized_lattice(flow_type, is_macos).height as int,
        flow_type,
    );
}

/// The buffers that every pass of the memory-optimised simulation binds
/// first: distributions, scratch, macroscopic state, cell info.
pub open spec fn base_buffers() -> Seq<StorageBuffer> {
    seq![
        StorageBuffer::Lattice,
        StorageBuffer::TempScalar,
        StorageBuffer::Macro,
        StorageBuffer::Info,
    ]
}

/// The buffers of the memory-optimised simulation and their sizes, given the
/// bytes of one float per cell: nine floats of distributions, four of cell
/// info, one of scratch, three of macroscopic state, nine of pigment
/// distributions and one of pigment concentration.
pub open spec fn optimized_allocations(scalar: int) -> Seq<(StorageBuffer, int)> {
    seq![
        (StorageBuffer::Lattice, scalar * 9),
        (StorageBuffer::Info, scalar * 4),
        (StorageBuffer::TempScalar, scalar),
        (StorageBuffer::Macro, scalar * 3),
        (StorageBuffer::Diffuse, scalar * 9),
        (StorageBuffer::DiffuseScalar, scalar),
    ]
}

/// `allocations` creates the buffers of `expected`, in that order and with
/// those sizes.
pub open spec fn allocates(allocations: Seq<Allocation>, expected: Seq<(StorageBuffer, int)>) -> bool {
    &&& allocations.len() == expected.len()
    &&& forall|i: int|
        0 <= i < expected.len() ==> (#[trigger] allocations[i]).buffer == expected[i].0
            && allocations[i].bytes == expected[i].1
}

fn base_buffer_list() -> (buffers: Vec<StorageBuffer>)
    ensures
        buffers@ == base_buffers(),
{
    let buffers = vec![
        StorageBuffer::Lattice,
        StorageBuffer::TempScalar,
        StorageBuffer::Macro,
        StorageBuffer::Info,
    ];
    assert(buffers@ == base_buffers());
    buffers
}

/// `setup` is the set-up of the memory-optimised simulation of `flow_type`:
/// its sizes, its buffers in creation order, and for each pass its shaders
/// and the buffers it binds.
pub open spec fn optimized_setup_spec(
    setup: OptimizedSetup,
    flow_type: FlowType,
    is_macos: bool,
) -> bool {
    let pigments = flow_type == FlowType::PigmentsDiffuse;
    &&& setup.lattice == optimized_lattice(flow_type, is_macos)
    &&& setup.particle == optimized_particles(flow_type)
    &&& setup.threadgroup_count == covering_groups(setup.lattice)
    &&& setup.scalar_lattice_bytes == floats_bytes(setup.lattice, 1)
    &&& allocates(setup.allocations@, optimized_allocations(setup.scalar_lattice_bytes as int))
    &&& setup.boundary.shader == (if flow_type == FlowType::LidDrivenCavity {
        Shader::LidDrivenBoundary
    } else {
        Shader::Boundary
    })
    &&& setup.boundary.buffers@ == base_buffers()
    &&& setup.collide_stream.collide == (if pigments {
        Shader::DiffuseAdvectCollide
    } else {
        Shader::Collide
    })
    &&& setup.collide_stream.stream == Shader::Stream
    &&& setup.collide_stream.buffers@ == base_buffers()
    &&& setup.diffuse is Some <==> pigments
    &&& setup.diffuse matches Some(d) ==> {
        &&& d.collide_stream.collide == Shader::DiffuseCollide
        &&& d.collide_stream.stream == Shader::DiffuseStream
        &&& d.collide_stream.buffers@ == base_buffers().push(StorageBuffer::Diffuse).push(
            StorageBuffer::DiffuseScalar,
        )
        &&& d.boundary.shader == Shader::DiffuseBoundary
        &&& d.boundary.buffers@ == base_buffers().push(StorageBuffer::Diffuse)
    }
    &&& pigments ==> {
        &&& setup.renderer.kind == RendererKind::PigmentDiffuse
        &&& setup.renderer.buffers@ == seq![StorageBuffer::Macro, StorageBuffer::DiffuseScalar]
        &&& setup.init.shader == Shader::DiffuseInit
        &&& setup.init.buffers@ == base_buffers().push(StorageBuffer::Diffuse)
    }
    &&& !pigments ==> {
        &&& setup.renderer.kind == RendererKind::Trajectory
        &&& setup.renderer.buffers@ == seq![StorageBuffer::Macro, StorageBuffer::Info]
        &&& setup.init.shader == Shader::Init
        &&& setup.init.buffers@ == base_buffers()
    }
}

/// The set-up of the memory-optimised simulation of `flow_type`; ink
/// painting has a set-up of its own.
pub fn optimized_setup(flow_type: FlowType, is_macos: bool) -> (setup: OptimizedSetup)
    requires
        flow_type != FlowType::Ink,
    ensures
        optimized_setup_spec(setup, flow_type, is_macos),
{
    let (lattice, particle) = match flow_type {
        FlowType::Poiseuille => (
            Extent3d { width: 100, height: 75, depth: 1 },
            Extent3d { width: 180, height: 120, depth: 1 },
        ),
        FlowType::LidDrivenCavity => (
            Extent3d { width: 100, height: 100, depth: 1 },
            Extent3d { width: 75, height: 50, depth: 1 },
        ),
        _ => {
            if is_macos {
                (
                    Extent3d { width: 200, height: 150, depth: 1 },
                    Extent3d { width: 0, height: 0, depth: 0 },
                )
            } else {
                (
                    Extent3d { width: 150, height: 250, depth: 1 },
                    Extent3d { width: 0, height: 0, depth: 0 },
                )
            }
        },
    };
    let scalar: u64 = grid_bytes(lattice.width, lattice.height, 4);
    let allocations = vec![
        Allocation { buffer: StorageBuffer::Lattice, bytes: scalar * 9 },
        Allocation { buffer: StorageBuffer::Info, bytes: scalar * 4 },
        Allocation { buffer: StorageBuffer::TempScalar, bytes: scalar },
        Allocation { buffer: StorageBuffer::Macro, bytes: scalar * 3 },
        Allocation { buffer: StorageBuffer::Diffuse, bytes: scalar * 9 },
        Allocation { buffer: StorageBuffer::DiffuseScalar, bytes: scalar },
    ];
    let boundary_shader = match flow_type {
        FlowType::LidDrivenCavity => Shader::LidDrivenBoundary,
        _ => Shader::Boundary,
    };
    let boundary = ComputePlan { shader: boundary_shader, buffers: base_buffer_list() };
    let is_pigments = match flow_type {
        FlowType::PigmentsDiffuse => true,
        _ => false,
    };
    let (diffuse, renderer, collide_shader, init) = if is_pigments {
        let mut diffuse_buffers = base_buffer_list();
        diffuse_buffers.push(StorageBuffer::Diffuse);
        diffuse_buffers.push(StorageBuffer::DiffuseScalar);
        let mut boundary_buffers = base_buffer_list();
        boundary_buffers.push(StorageBuffer::Diffuse);
        let mut init_buffers = base_buffer_list();
        init_buffers.push(StorageBuffer::Diffuse);
        (
            Some(
                DiffusePlan {
                    collide_stream: CollideStreamPlan {
                        collide: Shader::DiffuseCollide,
                        stream: Shader::DiffuseStream,
                        buffers: diffuse_buffers,
                    },
                    boundary: ComputePlan {
                        shader: Shader::DiffuseBoundary,
                        buffers: boundary_buffers,
                    },
                },
            ),
            RendererPlan {
                kind: RendererKind::PigmentDiffuse,
                buffers: vec![StorageBuffer::Macro, StorageBuffer::DiffuseScalar],
            },
            Shader::DiffuseAdvectCollide,
            ComputePlan { shader: Shader::DiffuseInit, buffers: init_buffers },
        )
    } else {
        (
            None,
            RendererPlan {
                kind: RendererKind::Trajectory,
                buffers: vec![StorageBuffer::Macro, StorageBuffer::Info],
            },
            Shader::Collide,
            ComputePlan { shader: Shader::Init, buffers: base_buffer_list() },
        )
    };
    let collide_stream = CollideStreamPlan {
        collide: collide_shader,
        stream: Shader::Stream,
        buffers: base_buffer_list(),
    };
    let setup = OptimizedSetup {
        lattice,
        particle,
        threadgroup_count: threadgroup_count(lattice.width, lattice.height),
        scalar_lattice_bytes: scalar,
        allocations,
        boundary,
        collide_stream,
        diffuse,
        renderer,
        init,
    };
    assert(setup.renderer.buffers@ == seq![StorageBuffer::Macro, StorageBuffer::DiffuseScalar]
        || setup.renderer.buffers@ == seq![StorageBuffer::Macro, StorageBuffer::Info]);
    setup
}

/// What the memory-optimised set-up builds, for every flow and platform:
/// the flow's own collide-and-stream pass always streams with the common
/// stream shader and binds the distributions, scratch, macroscopic state and
/// cell info in that order, as does the boundary pass; only the cavity uses
/// the moving-lid boundary; only pigment diffusion collides with advection
/// and has a second, pigment, pass that streams with the pigment shader and
/// binds the pigment buffers after the common ones; the set-up allocates six
/// buffers sized from one float per cell of the lattice; and the lattice
/// is covered by 16 by 16 workgroups.
pub proof fn lemma_optimized_setup_plan(setup: OptimizedSetup, flow_type: FlowType, is_macos: bool)
    requires
        flow_type != FlowType::Ink,
        optimized_setup_spec(setup, flow_type, is_macos),
    ensures
        setup.collide_stream.stream == Shader::Stream,
        setup.collide_stream.buffers@ == seq![
            StorageBuffer::Lattice,
            StorageBuffer::TempScalar,
            StorageBuffer::Macro,
            StorageBuffer::Info,
        ],
        setup.boundary.buffers@ == setup.collide_stream.buffers@,
        (setup.boundary.shader == Shader::LidDrivenBoundary) <==> flow_type
            == FlowType::LidDrivenCavity,
        setup.boundary.shader == Shader::LidDrivenBoundary || setup.boundary.shader
            == Shader::Boundary,
        (setup.collide_stream.collide == Shader::DiffuseAdvectCollide) <==> flow_type
            == FlowType::PigmentsDiffuse,
        setup.collide_stream.collide == Shader::DiffuseAdvectCollide
            || setup.collide_stream.collide == Shader::Collide,
        setup.diffuse matches Some(d) ==> {
            &&& d.collide_stream.stream == Shader::DiffuseStream
            &&& d.collide_stream.collide == Shader::DiffuseCollide
            &&& d.boundary.shader == Shader::DiffuseBoundary
            &&& d.collide_stream.buffers@ == setup.collide_stream.buffers@ + seq![
                StorageBuffer::Diffuse,
                StorageBuffer::DiffuseScalar,
            ]
            &&& d.boundary.buffers@ == setup.collide_stream.buffers@ + seq![StorageBuffer::Diffuse]
        },
        setup.init.buffers@ == if flow_type == FlowType::PigmentsDiffuse {
            setup.collide_stream.buffers@ + seq![StorageBuffer::Diffuse]
        } else {
            setup.collide_stream.buffers@
        },
        setup.scalar_lattice_bytes == setup.lattice.width * setup.lattice.height * 4,
        setup.allocations@.len() == 6,
        setup.allocations@[0].bytes == 9 * setup.scalar_lattice_bytes,
        setup.allocations@[1].bytes == 4 * setup.scalar_lattice_bytes,
        setup.allocations@[2].bytes == setup.scalar_lattice_bytes,
        setup.allocations@[3].bytes == 3 * setup.scalar_lattice_bytes,
        setup.allocations@[4].bytes == 9 * setup.scalar_lattice_bytes,
        setup.allocations@[5].bytes == setup.scalar_lattice_bytes,
        setup.threadgroup_count.0 == (setup.lattice.width + 15) / 16,
        setup.threadgroup_count.1 == (setup.lattice.height + 15) / 16,
        setup.lattice.depth == 1,
{
    assert(base_buffers().push(StorageBuffer::Diffuse) =~= base_buffers() + seq![
        StorageBuffer::Diffuse,
    ]);
    assert(base_buffers().push(StorageBuffer::Diffuse).push(StorageBuffer::DiffuseScalar)
        =~= base_buffers() + seq![StorageBuffer::Diffuse, StorageBuffer::DiffuseScalar]);
    assert(setup.allocations@[0].bytes == optimized_allocations(
        setup.scalar_lattice_bytes as int,
    )[0].1);
    assert(setup.allocations@[1].bytes == optimized_allocations(
        setup.scalar_lattice_bytes as int,
    )[1].1);
    assert(setup.allocations@[2].bytes == optimized_allocations(
        setup.scalar_lattice_bytes as int,
    )[2].1);
    assert(setup.allocations@[3].bytes == optimized_allocations(
        setup.scalar_lattice_bytes as int,
    )[3].1);
    assert(setup.allocations@[4].bytes == optimized_allocations(
        setup.scalar_lattice_bytes as int,
    )[4].1);
    assert(setup.allocations@[5].bytes == optimized_allocations(
        setup.scalar_lattice_bytes as int,
    )[5].1);
}

/// The lattices and particle grids of the simulations, and the sizing
/// helpers: the two-buffer simulation runs the channel and the pigments on
/// 200 by 150 cells and the cavity on 100 by 100; the memory-optimised one
/// runs the channel on 100 by 75, the cavity on 100 by 100 and the pigments
/// on 200 by 150 on macOS, 150 by 250 elsewhere; workgroup counts round the
/// sides up to multiples of 16; buffer sizes are cells times floats times 4.
pub proof fn lemma_sizes(flow_type: FlowType, is_macos: bool, lattice: Extent3d, floats: int)
    ensures
        covering_groups(lattice).0 == (lattice.width + 15) / 16,
        covering_groups(lattice).1 == (lattice.height + 15) / 16,
        floats_bytes(lattice, floats) == lattice.width * lattice.height * floats * 4,
        flow_type == FlowType::Poiseuille ==> {
            &&& lbm_lattice(flow_type) == Extent3d { width: 200, height: 150, depth: 1 }
            &&& lbm_particles(flow_type) == Extent3d { width: 100, height: 75, depth: 1 }
            &&& optimized_lattice(flow_type, is_macos) == Extent3d {
                width: 100,
                height: 75,
                depth: 1,
            }
            &&& optimized_particles(flow_type) == Extent3d { width: 180, height: 120, depth: 1 }
        },
        flow_type == FlowType::LidDrivenCavity ==> {
            &&& lbm_lattice(flow_type) == Extent3d { width: 100, height: 100, depth: 1 }
            &&& lbm_particles(flow_type) == Extent3d { width: 75, height: 50, depth: 1 }
            &&& optimized_lattice(flow_type, is_macos) == Extent3d {
                width: 100,
                height: 100,
                depth: 1,
            }
            &&& optimized_particles(flow_type) == Extent3d { width: 75, height: 50, depth: 1 }
        },
        flow_type == FlowType::PigmentsDiffuse ==> {
            &&& lbm_lattice(flow_type) == Extent3d { width: 200, height: 150, depth: 1 }
            &&& lbm_particles(flow_type) == Extent3d { width: 0, height: 0, depth: 0 }
            &&& optimized_lattice(flow_type, is_macos) == if is_macos {
                Extent3d { width: 200, height: 150, depth: 1 }
            } else {
                Extent3d { width: 150, height: 250, depth: 1 }
            }
            &&& optimized_particles(flow_type) == Extent3d { width: 0, height: 0, depth: 0 }
        },
{
}

// ---------------------------------------------------------------------------
// The stand-alone channel, smoke and vector field views
// ---------------------------------------------------------------------------

/// How many particles the stand-alone channel seeds along each axis per
/// lattice cell.
pub const CHANNEL_PARTICLES_PER_CELL: u32 = 3;

/// Sizes and shaders of the stand-alone channel flow.
pub struct ChannelSetup {
    pub lattice: Extent3d,
    pub particle: Extent3d,
    pub threadgroup_count: (u32, u32),
    pub lattice_bytes: u64,
    pub fluid_bytes: u64,
    pub propagate_shader: Shader,
    pub collide_shader: Shader,
    pub init_shader: Shader,
}

/// The set-up of the stand-alone channel: a 100 by 75 lattice with three
/// particles per cell along each axis.
pub fn channel_setup() -> (setup: ChannelSetup)
    ensures
        setup.lattice == flat(100, 75),
        setup.particle == flat(300, 225),
        setup.particle.width == setup.lattice.width * CHANNEL_PARTICLES_PER_CELL,
        setup.particle.height == setup.lattice.height * CHANNEL_PARTICLES_PER_CELL,
        setup.threadgroup_count == covering_groups(setup.lattice),
        setup.lattice_bytes == floats_bytes(setup.lattice, DISTRIBUTION_FLOATS as int),
        setup.fluid_bytes == floats_bytes(setup.lattice, FLUID_FLOATS as int),
        setup.propagate_shader == Shader::ChannelPropagate,
        setup.collide_shader == Shader::ChannelCollide,
        setup.init_shader == Shader::ChannelInit,
{
    let width: u32 = 100;
    let height: u32 = 75;
    ChannelSetup {
        lattice: Extent3d { width, height, depth: 1 },
        particle: Extent3d { width: width * 3, height: height * 3, depth: 1 },
        threadgroup_count: threadgroup_count(width, height),
        lattice_bytes: grid_bytes(width, height, 9 * 4),
        fluid_bytes: grid_bytes(width, height, 4 * 4),
        propagate_shader: Shader::ChannelPropagate,
        collide_shader: Shader::ChannelCollide,
        init_shader: Shader::ChannelInit,
    }
}

/// Sizes and shader of the smoke simulation.
pub struct SmokeSetup {
    pub lattice: Extent3d,
    pub threadgroup_count: (u32, u32),
    /// Bytes of each of the two velocity buffers, two floats per cell.
    pub velocity_bytes: u64,
    /// Bytes of the divergence and of the pressure buffer, one float per cell.
    pub scalar_bytes: u64,
    pub advect_shader: Shader,
}

/// The set-up of the smoke simulation on a 100 by 75 lattice.
pub fn smoke_setup() -> (setup: SmokeSetup)
    ensures
        setup.lattice == flat(100, 75),
        setup.threadgroup_count == covering_groups(setup.lattice),
        setup.velocity_bytes == floats_bytes(setup.lattice, 2),
        setup.scalar_bytes == floats_bytes(setup.lattice, 1),
        setup.advect_shader == Shader::SmokeAdvect,
{
    let width: u32 = 100;
    let height: u32 = 75;
    SmokeSetup {
        lattice: Extent3d { width, height, depth: 1 },
        threadgroup_count: threadgroup_count(width, height),
        velocity_bytes: grid_bytes(width, height, 2 * 4),
        scalar_bytes: grid_bytes(width, height, 4),
        advect_shader: Shader::SmokeAdvect,
    }
}

/// Sizes and shaders of the particles driven through a coarse vector field.
pub struct VectorFieldSetup {
    pub particle: Extent3d,
    /// Cells of the vector field along x and y; one workgroup per cell.
    pub field_grid: (u32, u32),
    /// Bytes of the field, two floats per cell.
    pub field_bytes: u64,
    /// Bytes of the particles, three floats each.
    pub particle_bytes: u64,
    pub particle_count: u32,
    pub particle_shader: Shader,
    pub field_shader: Shader,
}

/// The set-up of a 100 by 100 particle grid in a 5 by 4 vector field.
pub fn vector_field_setup() -> (setup: VectorFieldSetup)
    ensures
        setup.particle == flat(100, 100),
        setup.field_grid == (5u32, 4u32),
        setup.field_bytes == 5 * 4 * 2 * FLOAT_BYTES,
        setup.particle_count == setup.particle.width * setup.particle.height,
        setup.particle_bytes == setup.particle_count * 3 * FLOAT_BYTES,
        setup.particle_shader == Shader::FieldParticles,
        setup.field_shader == Shader::VectorField,
{
    let field_grid: (u32, u32) = (5, 4);
    let particle = Extent3d { width: 100, height: 100, depth: 1 };
    let particle_count: u32 = particle.width * particle.height;
    VectorFieldSetup {
        particle,
        field_grid,
        field_bytes: grid_bytes(field_grid.0, field_grid.1, 2 * 4),
        particle_bytes: (particle_count * 3 * 4) as u64,
        particle_count,
        particle_shader: Shader::FieldParticles,
        field_shader: Shader::VectorField,
    }
}

} // verus!
