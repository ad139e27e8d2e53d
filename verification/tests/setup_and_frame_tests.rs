use fluid_webgpu::frame::{
    ink_frame_passes, lbm_frame_passes, optimized_frame_passes, FrameCounter, OptimizedFlow, Pass,
};
use fluid_webgpu::grid::Extent3d;
use fluid_webgpu::lattice::lattice_defined_everywhere;
use fluid_webgpu::ink::{ink_setup, touch_uniform_at, InkInteraction};
use fluid_webgpu::particles::{particle_render_setup, particle_vertex_data};
use fluid_webgpu::setup::{
    channel_setup, lbm_setup, optimized_setup, relaxation_time_hundredths, smoke_setup, vector_field_setup, RendererKind,
    StorageBuffer,
};
use fluid_webgpu::shader::Shader;
use fluid_webgpu::FlowType;

fn ext(width: u32, height: u32, depth: u32) -> Extent3d {
    Extent3d { width, height, depth }
}

#[test]
fn lbm_setup_per_flow() {
    let p = lbm_setup(FlowType::Poiseuille);
    assert_eq!(p.lattice, ext(200, 150, 1));
    assert_eq!(p.particle, ext(100, 75, 1));
    assert_eq!(p.threadgroup_count, (13, 10));
    assert_eq!(p.lattice_bytes, 200 * 150 * 9 * 4);
    assert_eq!(p.fluid_bytes, 200 * 150 * 4 * 4);
    assert_eq!(p.stream_shader.path(), "lbm/poiseuille_stream");
    assert_eq!(p.collide_shader.path(), "lbm/d2q9_collide");
    assert_eq!(p.init_shader.path(), "lbm/d2q9_init");
    assert!(p.renders_trajectories);

    let l = lbm_setup(FlowType::LidDrivenCavity);
    assert_eq!(l.lattice, ext(100, 100, 1));
    assert_eq!(l.particle, ext(75, 50, 1));
    assert_eq!(l.threadgroup_count, (7, 7));
    assert_eq!(l.stream_shader, Shader::LbmLidDrivenStream);
    assert_eq!(l.stream_shader.path(), "lbm/lid_driven_stream");
    assert!(l.renders_trajectories);

    let d = lbm_setup(FlowType::PigmentsDiffuse);
    assert_eq!(d.lattice, ext(200, 150, 1));
    assert_eq!(d.particle, ext(0, 0, 0));
    assert_eq!(d.stream_shader, Shader::LbmPoiseuilleStream);
    assert!(!d.renders_trajectories);
}

#[test]
fn optimized_setup_of_channel() {
    let s = optimized_setup(FlowType::Poiseuille, false);
    assert_eq!(s.lattice, ext(100, 75, 1));
    assert_eq!(s.particle, ext(180, 120, 1));
    assert_eq!(s.threadgroup_count, (7, 5));
    assert_eq!(s.scalar_lattice_bytes, 100 * 75 * 4);
    let sizes: Vec<(StorageBuffer, u64)> = s.allocations.iter().map(|a| (a.buffer, a.bytes)).collect();
    assert_eq!(
        sizes,
        vec![
            (StorageBuffer::Lattice, 270_000),
            (StorageBuffer::Info, 120_000),
            (StorageBuffer::TempScalar, 30_000),
            (StorageBuffer::Macro, 90_000),
            (StorageBuffer::Diffuse, 270_000),
            (StorageBuffer::DiffuseScalar, 30_000),
        ]
    );
    let base = vec![StorageBuffer::Lattice, StorageBuffer::TempScalar, StorageBuffer::Macro, StorageBuffer::Info];
    assert_eq!(s.boundary.shader.path(), "optimized_mem_lbm/boundary");
    assert_eq!(s.boundary.buffers, base);
    assert_eq!(s.collide_stream.collide.path(), "optimized_mem_lbm/collide");
    assert_eq!(s.collide_stream.stream.path(), "optimized_mem_lbm/stream");
    assert_eq!(s.collide_stream.buffers, base);
    assert!(s.diffuse.is_none());
    assert_eq!(s.renderer.kind, RendererKind::Trajectory);
    assert_eq!(s.renderer.buffers, vec![StorageBuffer::Macro, StorageBuffer::Info]);
    assert_eq!(s.init.shader.path(), "optimized_mem_lbm/init");
    assert_eq!(s.init.buffers, base);
}

#[test]
fn optimized_setup_of_cavity() {
    let s = optimized_setup(FlowType::LidDrivenCavity, true);
    assert_eq!(s.lattice, ext(100, 100, 1));
    assert_eq!(s.particle, ext(75, 50, 1));
    assert_eq!(s.boundary.shader.path(), "optimized_mem_lbm/lid_driven_boundary");
    assert!(s.diffuse.is_none());
}

#[test]
fn optimized_setup_of_pigments() {
    for (is_macos, lattice) in [(true, ext(200, 150, 1)), (false, ext(150, 250, 1))] {
        let s = optimized_setup(FlowType::PigmentsDiffuse, is_macos);
        assert_eq!(s.lattice, lattice);
        assert_eq!(s.particle, ext(0, 0, 0));
        assert_eq!(s.boundary.shader, Shader::Boundary);
        assert_eq!(s.collide_stream.collide.path(), "optimized_mem_lbm/diffuse/advect_collide");
        let d = s.diffuse.as_ref().unwrap();
        assert_eq!(d.collide_stream.collide.path(), "optimized_mem_lbm/diffuse/collide");
        assert_eq!(d.collide_stream.stream.path(), "optimized_mem_lbm/diffuse/stream");
        assert_eq!(
            d.collide_stream.buffers,
            vec![
                StorageBuffer::Lattice,
                StorageBuffer::TempScalar,
                StorageBuffer::Macro,
                StorageBuffer::Info,
                StorageBuffer::Diffuse,
                StorageBuffer::DiffuseScalar
            ]
        );
        assert_eq!(d.boundary.shader.path(), "optimized_mem_lbm/diffuse/boundary");
        assert_eq!(d.boundary.buffers.len(), 5);
        assert_eq!(d.boundary.buffers[4], StorageBuffer::Diffuse);
        assert_eq!(s.renderer.kind, RendererKind::PigmentDiffuse);
        assert_eq!(s.renderer.buffers, vec![StorageBuffer::Macro, StorageBuffer::DiffuseScalar]);
        assert_eq!(s.init.shader.path(), "optimized_mem_lbm/diffuse/init");
        assert_eq!(s.init.buffers[4], StorageBuffer::Diffuse);
    }
}

#[test]
fn ink_setup_values() {
    let s = ink_setup();
    assert_eq!(s.lattice, ext(200, 150, 1));
    assert_eq!(s.particle, ext(0, 0, 0));
    assert_eq!(s.threadgroup_count, (13, 10));
    assert_eq!(s.interact_threadgroup_count, (16, 16));
    assert_eq!(s.scalar_lattice_bytes, 120_000);
    let sizes: Vec<(StorageBuffer, u64)> = s.allocations.iter().map(|a| (a.buffer, a.bytes)).collect();
    assert_eq!(
        sizes,
        vec![
            (StorageBuffer::Lattice, 1_080_000),
            (StorageBuffer::Info, 480_000),
            (StorageBuffer::DiffuseScalar, 120_000),
            (StorageBuffer::TempScalar, 120_000),
            (StorageBuffer::Macro, 480_000),
        ]
    );
    assert_eq!(s.interact.shader.path(), "optimized_mem_lbm/ink/interact");
    assert_eq!(s.collide_stream.collide.path(), "optimized_mem_lbm/ink/collide");
    assert_eq!(s.collide_stream.stream.path(), "optimized_mem_lbm/ink/stream");
    assert_eq!(s.init.shader.path(), "optimized_mem_lbm/ink/init");
    assert_eq!(
        s.init.buffers,
        vec![
            StorageBuffer::Lattice,
            StorageBuffer::TempScalar,
            StorageBuffer::Info,
            StorageBuffer::Macro,
            StorageBuffer::DiffuseScalar
        ]
    );
    assert_eq!(s.renderer.kind, RendererKind::PigmentDiffuse);
}

#[test]
fn other_setups() {
    let c = channel_setup();
    assert_eq!(c.lattice, ext(100, 75, 1));
    assert_eq!(c.particle, ext(300, 225, 1));
    assert_eq!(c.threadgroup_count, (7, 5));
    assert_eq!(c.lattice_bytes, 270_000);
    assert_eq!(c.fluid_bytes, 120_000);
    assert_eq!(c.propagate_shader.path(), "fluid/poiseuille_propagate");
    let s = smoke_setup();
    assert_eq!(s.velocity_bytes, 60_000);
    assert_eq!(s.scalar_bytes, 30_000);
    assert_eq!(s.advect_shader.path(), "nse/advect");
    let v = vector_field_setup();
    assert_eq!(v.field_grid, (5, 4));
    assert_eq!(v.field_bytes, 160);
    assert_eq!(v.particle_count, 10_000);
    assert_eq!(v.particle_bytes, 120_000);
    assert_eq!(v.field_shader.path(), "particle/vector_field");
}

#[test]
fn touch_uniform_corner() {
    let t = touch_uniform_at(100, 3);
    assert_eq!(t.touch_point, [100, 3]);
    assert_eq!(t.lt_lattice, [92, -5]);
    assert_eq!(t.tex_size, [16, 16]);
}

#[test]
fn ink_interaction_paints_once_per_touch() {
    let mut s = InkInteraction::new();
    let first = s.begin_frame().expect("first frame paints");
    assert_eq!(first.touch_point, [9, 9]);
    assert_eq!(first.lt_lattice, [1, 1]);
    assert!(s.begin_frame().is_none());
    s.touch_moved(40, 20);
    let painted = s.begin_frame().expect("touch painted");
    assert_eq!(painted.touch_point, [40, 20]);
    assert_eq!(painted.lt_lattice, [32, 12]);
    assert!(s.begin_frame().is_none());
    assert!(s.begin_frame().is_none());
}

#[test]
fn frame_pass_lists() {
    assert_eq!(lbm_frame_passes(), vec![Pass::Stream, Pass::Collide, Pass::Particles]);
    assert_eq!(
        optimized_frame_passes(FlowType::Poiseuille),
        vec![Pass::CollideStream, Pass::Boundary, Pass::Particles]
    );
    assert_eq!(
        optimized_frame_passes(FlowType::PigmentsDiffuse),
        vec![
            Pass::CollideStream,
            Pass::Boundary,
            Pass::DiffuseCollideStream,
            Pass::DiffuseBoundary,
            Pass::Particles
        ]
    );
    assert_eq!(ink_frame_passes(true), vec![Pass::Interact, Pass::CollideStream, Pass::Particles]);
    assert_eq!(ink_frame_passes(false), vec![Pass::CollideStream, Pass::Particles]);
}

#[test]
fn throttled_frames() {
    let mut c = FrameCounter::new();
    let mut rendered = vec![];
    for _ in 0..35 {
        if c.enter_frame() {
            rendered.push(c.swap);
        }
    }
    assert_eq!(rendered, vec![10, 20, 30]);
    assert_eq!(c.swap, 35);
    assert_eq!(c.progress(), 3);
    let mut late = FrameCounter { swap: 6_009 };
    assert!(late.enter_frame());
    assert_eq!(late.progress(), 1);
}

#[test]
fn vertex_ids() {
    let ids = particle_vertex_data(ext(3, 2, 1));
    assert_eq!(ids, vec![0, 3, 1, 4, 2, 5]);
    let mut sorted = particle_vertex_data(ext(75, 50, 1));
    assert_eq!(sorted.len(), 3750);
    sorted.sort();
    assert_eq!(sorted, (0..3750).collect::<Vec<i32>>());
    assert!(particle_vertex_data(ext(0, 10, 1)).is_empty());
}

#[test]
fn render_sizes() {
    let r = particle_render_setup(800, 600, ext(100, 75, 1));
    assert_eq!(r.canvas_bytes, 800 * 600 * 12);
    assert_eq!(r.particle_bytes, 100 * 75 * 24);
    assert_eq!(r.particle_threadgroup_count, (7, 5));
    assert_eq!(r.fade_threadgroup_count, (50, 38));
}

#[test]
fn setup_lattices_are_classifiable() {
    for flow in [FlowType::Poiseuille, FlowType::LidDrivenCavity, FlowType::PigmentsDiffuse] {
        let l = lbm_setup(flow).lattice;
        assert!(lattice_defined_everywhere(l.width, l.height, flow));
        for is_macos in [true, false] {
            let o = optimized_setup(flow, is_macos).lattice;
            assert!(lattice_defined_everywhere(o.width, o.height, flow));
        }
    }
    let i = ink_setup().lattice;
    assert!(lattice_defined_everywhere(i.width, i.height, FlowType::Ink));
}

#[test]
fn frames_run_the_passes_that_were_built() {
    for flow in [FlowType::Poiseuille, FlowType::LidDrivenCavity, FlowType::PigmentsDiffuse] {
        let built = optimized_setup(flow, true).diffuse.is_some();
        let passes = optimized_frame_passes(flow);
        assert_eq!(passes.contains(&Pass::DiffuseCollideStream), built);
        assert_eq!(passes.contains(&Pass::DiffuseBoundary), built);
        assert_eq!(*passes.last().unwrap(), Pass::Particles);
    }
}

#[test]
fn throttled_frames_from_negative_counts() {
    let mut c = FrameCounter { swap: -11 };
    assert!(c.enter_frame());
    assert_eq!(c.swap, -10);
    assert!(!c.enter_frame());
    assert_eq!(c.progress(), 0);
    let c = FrameCounter { swap: -25 };
    assert_eq!(c.progress(), -2);
    let c = FrameCounter { swap: i32::MIN };
    assert_eq!(c.progress(), (i32::MIN / 10) % 60);
    let mut last = FrameCounter { swap: i32::MAX - 1 };
    last.enter_frame();
    assert_eq!(last.swap, i32::MAX);
}

#[test]
fn renders_over_many_frames() {
    let mut c = FrameCounter::new();
    let mut renders = 0;
    let mut printed = vec![];
    for n in 1..=12_345 {
        if c.enter_frame() {
            renders += 1;
            printed.push(c.progress());
            assert_eq!(c.progress(), renders % 60);
        }
        assert_eq!(renders, n / 10);
    }
    assert_eq!(printed[0], 1);
    assert_eq!(printed[59], 0);
}

#[test]
fn ink_paints_once_over_many_frames() {
    let mut s = InkInteraction::new();
    s.begin_frame();
    s.touch_moved(70, 30);
    let paints = (0..50).filter(|_| s.begin_frame().is_some()).count();
    assert_eq!(paints, 1);
}

#[test]
fn optimized_flow_keeps_its_passes() {
    for flow in [FlowType::Poiseuille, FlowType::LidDrivenCavity, FlowType::PigmentsDiffuse] {
        let (mut state, setup) = OptimizedFlow::start(flow, false);
        assert_eq!(state.has_diffuse_passes, setup.diffuse.is_some());
        assert_eq!(state.has_diffuse_passes, flow == FlowType::PigmentsDiffuse);
        for n in 1..=30 {
            let passes = state.enter_frame();
            assert_eq!(passes, optimized_frame_passes(flow));
            assert_eq!(passes.contains(&Pass::DiffuseBoundary), state.has_diffuse_passes);
            assert_eq!(state.flow_type, flow);
            assert_eq!(state.frames.swap, n);
        }
    }
}

#[test]
fn relaxation_times() {
    assert_eq!(relaxation_time_hundredths(FlowType::LidDrivenCavity), 53);
    assert_eq!(relaxation_time_hundredths(FlowType::Poiseuille), 83);
    assert_eq!(relaxation_time_hundredths(FlowType::PigmentsDiffuse), 83);
    assert_eq!(relaxation_time_hundredths(FlowType::Ink), 83);
    // in single precision they are the values the shaders were tuned with
    let lid: f32 = 0.5 * (1.0 + 6.0 * 0.01);
    assert_eq!(relaxation_time_hundredths(FlowType::LidDrivenCavity) as f32 / 100.0, lid);
    assert_eq!(relaxation_time_hundredths(FlowType::Poiseuille) as f32 / 100.0, 0.83f32);
}

#[test]
fn optimized_flow_start_builds_the_full_setup() {
    let (state, setup) = OptimizedFlow::start(FlowType::Poiseuille, true);
    assert_eq!(state.frames.swap, 0);
    assert_eq!(setup.particle, ext(180, 120, 1));
    assert_eq!(setup.allocations.len(), 6);
    assert_eq!(setup.boundary.shader, Shader::Boundary);
}
