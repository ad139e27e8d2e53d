use fluid_webgpu::collide_stream::{
    collide_stream_schedule, direction_binding_bytes, direction_uniforms, Pipeline,
    Q9DirectionUniform, DIRECTION_UNIFORM_STRIDE,
};
use fluid_webgpu::d2q9::{d2q9_stencil, LatticeVelocity, Q, WEIGHT_DENOMINATOR};
use fluid_webgpu::grid::{grid_bytes, threadgroup_count};

#[test]
fn stencil_in_shader_order() {
    let s = d2q9_stencil();
    let expected = [
        (0, 0, 16),
        (1, 0, 4),
        (0, -1, 4),
        (-1, 0, 4),
        (0, 1, 4),
        (1, -1, 1),
        (-1, -1, 1),
        (-1, 1, 1),
        (1, 1, 1),
    ];
    assert_eq!(s.len(), Q);
    for (k, (ex, ey, w)) in expected.iter().enumerate() {
        assert_eq!(s[k], LatticeVelocity { ex: *ex, ey: *ey, weight_36: *w });
    }
}

#[test]
fn stencil_weights_match_the_float_table() {
    let s = d2q9_stencil();
    let w0: f32 = 4.0 / 9.0;
    let w1: f32 = 1.0 / 9.0;
    let w2: f32 = 1.0 / 36.0;
    let as_f32: Vec<f32> = s.iter().map(|v| v.weight_36 as f32 / WEIGHT_DENOMINATOR as f32).collect();
    assert_eq!(as_f32[0], w0);
    for k in 1..5 {
        assert_eq!(as_f32[k], w1);
    }
    for k in 5..9 {
        assert_eq!(as_f32[k], w2);
    }
}

#[test]
fn stencil_moments() {
    let s = d2q9_stencil();
    let sum = |f: &dyn Fn(&LatticeVelocity) -> i64| -> i64 { s.iter().map(|v| v.weight_36 as i64 * f(v)).sum() };
    assert_eq!(sum(&|_| 1), 36);
    assert_eq!(sum(&|v| v.ex as i64), 0);
    assert_eq!(sum(&|v| v.ey as i64), 0);
    assert_eq!(sum(&|v| (v.ex * v.ex) as i64), 12);
    assert_eq!(sum(&|v| (v.ey * v.ey) as i64), 12);
    assert_eq!(sum(&|v| (v.ex * v.ey) as i64), 0);
}

#[test]
fn stencil_has_opposites() {
    let s = d2q9_stencil();
    let opposite = [0usize, 3, 4, 1, 2, 7, 8, 5, 6];
    for k in 0..9 {
        let o = opposite[k];
        assert_eq!(s[o].ex, -s[k].ex);
        assert_eq!(s[o].ey, -s[k].ey);
        assert_eq!(s[o].weight_36, s[k].weight_36);
    }
}

#[test]
fn workgroups_round_up() {
    assert_eq!(threadgroup_count(200, 150), (13, 10));
    assert_eq!(threadgroup_count(100, 75), (7, 5));
    assert_eq!(threadgroup_count(100, 100), (7, 7));
    assert_eq!(threadgroup_count(16, 32), (1, 2));
    assert_eq!(threadgroup_count(17, 0), (2, 0));
    assert_eq!(threadgroup_count(u32::MAX - 15, 1), (268435455, 1));
}

#[test]
fn buffer_bytes() {
    assert_eq!(grid_bytes(200, 150, 9 * 4), 1_080_000);
    assert_eq!(grid_bytes(200, 150, 4 * 4), 480_000);
    assert_eq!(grid_bytes(0, 150, 4), 0);
    assert_eq!(grid_bytes(65535, 16384, 4), 4_294_901_760);
}

#[test]
fn direction_uniforms_in_order() {
    let u = direction_uniforms();
    assert_eq!(u.len(), 9);
    for (k, d) in u.iter().enumerate() {
        assert_eq!(d.direction, k as u32);
        assert!(d.any0.iter().all(|&p| p == 0));
        assert!(d.any1.iter().all(|&p| p == 0));
    }
    assert_eq!(std::mem::size_of::<Q9DirectionUniform>(), DIRECTION_UNIFORM_STRIDE as usize);
    assert_eq!(direction_binding_bytes(), 2304);
    let single = Q9DirectionUniform::new(7);
    assert_eq!(single.direction, 7);
}

#[test]
fn collide_stream_dispatch_order() {
    let s = collide_stream_schedule();
    assert_eq!(s.len(), 17);
    assert_eq!(s[0].pipeline, Pipeline::Collide);
    assert_eq!(s[0].dynamic_offset, 0);
    for step in 1..=8u32 {
        let c = s[(2 * step - 1) as usize];
        let t = s[(2 * step) as usize];
        assert_eq!(c.pipeline, Pipeline::Collide);
        assert_eq!(t.pipeline, Pipeline::Stream);
        assert_eq!(c.dynamic_offset, 256 * step);
        assert_eq!(t.dynamic_offset, 256 * step);
    }
}

#[test]
fn stencil_speed_classes() {
    let s = d2q9_stencil();
    for (k, v) in s.iter().enumerate() {
        let speed2 = v.ex * v.ex + v.ey * v.ey;
        let expected = if k == 0 { 0 } else if k <= 4 { 1 } else { 2 };
        assert_eq!(speed2, expected);
    }
}

#[test]
fn workgroups_cover_without_waste() {
    for n in 0..1000u32 {
        let (g, _) = threadgroup_count(n, 0);
        assert!(n <= 16 * g);
        if n > 0 {
            assert!(16 * (g - 1) < n);
        } else {
            assert_eq!(g, 0);
        }
    }
}
