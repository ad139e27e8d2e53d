//! The collide-and-stream pass over the nine lattice directions: one uniform
//! block per direction, addressed by dynamic offset, and the order in which
//! the collide and stream pipelines are dispatched.
use vstd::prelude::*;

use crate::d2q9::Q;

verus! {

/// Bytes between two consecutive direction uniforms: the dynamic offset
/// alignment that the GPU asks for.
pub const DIRECTION_UNIFORM_STRIDE: u32 = 256;

/// The uniform block that tells a shader which lattice direction it works
/// on, padded with zeros to `DIRECTION_UNIFORM_STRIDE` bytes.
#[derive(Clone, Copy, Debug)]
pub struct Q9DirectionUniform {
    pub direction: u32,
    pub any0: [i32; 32],
    pub any1: [i32; 31],
}

/// `u` names direction `k` and all its padding is zero.
pub open spec fn is_direction_uniform(u: Q9DirectionUniform, k: int) -> bool {
    &&& u.direction == k
    &&& forall|i: int| 0 <= i < 32 ==> #[trigger] u.any0@[i] == 0
    &&& forall|i: int| 0 <= i < 31 ==> #[trigger] u.any1@[i] == 0
}

/// The bytes that the fields of a direction uniform add up to: one 4-byte
/// direction and 63 4-byte words of padding (the record's layout itself is
/// fixed by its GPU copy, which is `repr(C)`).
pub open spec fn direction_uniform_bytes() -> int {
    4int * (1 + 32 + 31)
}

impl Q9DirectionUniform {
    /// The uniform of lattice direction `direction`.
    pub fn new(direction: u32) -> (u: Self)
        ensures
            is_direction_uniform(u, direction as int),
    {
        Q9DirectionUniform { direction, any0: [0i32; 32], any1: [0i32; 31] }
    }
}

/// The uniforms of the nine lattice directions, in direction order; the
/// `k`-th starts `k * DIRECTION_UNIFORM_STRIDE` bytes into the buffer.
pub fn direction_uniforms() -> (uniforms: Vec<Q9DirectionUniform>)
    ensures
        uniforms.len() == Q,
        forall|k: int| 0 <= k < Q ==> is_direction_uniform(#[trigger] uniforms@[k], k),
{
    let mut uniforms: Vec<Q9DirectionUniform> = Vec::new();
    let mut k: u32 = 0;
    while k < 9
        invariant
            k <= 9,
            uniforms.len() == k,
            forall|j: int| 0 <= j < k ==> is_direction_uniform(#[trigger] uniforms@[j], j),
        decreases 9 - k,
    {
        uniforms.push(Q9DirectionUniform::new(k));
        k = k + 1;
    }
    uniforms
}

/// Bytes of the dynamic uniform binding that holds all nine directions.
pub fn direction_binding_bytes() -> (bytes: u64)
    ensures
        bytes == DIRECTION_UNIFORM_STRIDE * Q,
{
    256 * 9
}

/// The two compute pipelines of the pass.
#[derive(Clone, Copy, PartialEq, Eq, Structural, Debug)]
pub enum Pipeline {
    Collide,
    Stream,
}

/// One dispatch: the pipeline to run and the dynamic offset of the direction
/// uniform bound for it.
#[derive(Clone, Copy, PartialEq, Eq, Structural, Debug)]
pub struct Dispatch {
    pub pipeline: Pipeline,
    pub dynamic_offset: u32,
}

/// The number of dispatches of one collide-and-stream pass.
pub open spec fn schedule_len() -> int {
    2 * Q - 1
}

/// The `i`-th dispatch: first a collision for the rest direction, then for
/// each moving direction `k` in `1..=8` a collision and a streaming step with
/// the uniform of direction `k`.
pub open spec fn schedule_entry(i: int) -> Dispatch {
    if i == 0 {
        Dispatch { pipeline: Pipeline::Collide, dynamic_offset: 0 }
    } else {
        Dispatch {
            pipeline: if i % 2 == 1 {
                Pipeline::Collide
            } else {
                Pipeline::Stream
            },
            dynamic_offset: (DIRECTION_UNIFORM_STRIDE * ((i + 1) / 2)) as u32,
        }
    }
}

/// The dispatches of one collide-and-stream pass, in order.
pub fn collide_stream_schedule() -> (schedule: Vec<Dispatch>)
    ensures
        schedule.len() == schedule_len(),
        forall|i: int| 0 <= i < schedule_len() ==> #[trigger] schedule@[i] == schedule_entry(i),
{
    let mut schedule: Vec<Dispatch> = Vec::new();
    schedule.push(Dispatch { pipeline: Pipeline::Collide, dynamic_offset: 0 });
    let mut step: u32 = 1;
    while step <= 8
        invariant
            1 <= step <= 9,
            schedule.len() == 2 * step - 1,
            forall|i: int| 0 <= i < 2 * step - 1 ==> #[trigger] schedule@[i] == schedule_entry(i),
        decreases 9 - step,
    {
        let offset: u32 = 256 * step;
        schedule.push(Dispatch { pipeline: Pipeline::Collide, dynamic_offset: offset });
        schedule.push(Dispatch { pipeline: Pipeline::Stream, dynamic_offset: offset });
        proof {
            let a = 2 * step - 1;
            assert(schedule_entry(a) == Dispatch {
                pipeline: Pipeline::Collide,
                dynamic_offset: offset,
            });
            assert(schedule_entry(a + 1) == Dispatch {
                pipeline: Pipeline::Stream,
                dynamic_offset: offset,
            });
        }
        step = step + 1;
    }
    schedule
}

/// The fields of a direction uniform add up to exactly one stride of the
/// buffer.
pub proof fn lemma_direction_uniform_fills_stride()
    ensures
        direction_uniform_bytes() == DIRECTION_UNIFORM_STRIDE,
{
}

/// Every dispatch of the pass binds one of the nine direction uniforms, at a
/// stride boundary; streaming never binds the rest direction, and every
/// moving direction is streamed exactly once, right after its collision.
pub proof fn lemma_schedule_addresses_directions(i: int)
    requires
        0 <= i < schedule_len(),
    ensures
        schedule_entry(i).dynamic_offset % DIRECTION_UNIFORM_STRIDE == 0,
        schedule_entry(i).dynamic_offset / DIRECTION_UNIFORM_STRIDE < Q,
        schedule_entry(i).pipeline == Pipeline::Stream ==> schedule_entry(i).dynamic_offset
            != 0,
        schedule_entry(i).pipeline == Pipeline::Stream ==> {
            &&& schedule_entry(i - 1).pipeline == Pipeline::Collide
            &&& schedule_entry(i - 1).dynamic_offset == schedule_entry(i).dynamic_offset
        },
        forall|j: int|
            0 <= j < schedule_len() && schedule_entry(j).pipeline == Pipeline::Stream
                && schedule_entry(i).pipeline == Pipeline::Stream
                && schedule_entry(j).dynamic_offset == schedule_entry(i).dynamic_offset ==> j == i,
{
}

/// Each of the nine directions collides once in the pass, at its own
/// 256-byte slot: the rest direction first, then each moving direction `k`
/// at dispatch `2k - 1`, streamed right after; the pass has 17 dispatches.
pub proof fn lemma_every_direction_collides(k: int)
    requires
        0 <= k < 9,
    ensures
        schedule_len() == 17,
        DIRECTION_UNIFORM_STRIDE == 256,
        schedule_entry(if k == 0 {
            0
        } else {
            2 * k - 1
        }) == (Dispatch { pipeline: Pipeline::Collide, dynamic_offset: (256 * k) as u32 }),
        k > 0 ==> schedule_entry(2 * k) == (Dispatch {
            pipeline: Pipeline::Stream,
            dynamic_offset: (256 * k) as u32,
        }),
        forall|i: int|
            0 <= i < 17 && #[trigger] schedule_entry(i).pipeline == Pipeline::Collide
                && schedule_entry(i).dynamic_offset == 256 * k ==> i == (if k == 0 {
                0
            } else {
                2 * k - 1
            }),
{
}

/// A direction uniform carries its direction and zeros elsewhere.
pub proof fn lemma_direction_uniform_contents(u: Q9DirectionUniform, k: int)
    requires
        is_direction_uniform(u, k),
    ensures
        u.direction == k,
        u.any0@ =~= Seq::new(32, |i: int| 0i32),
        u.any1@ =~= Seq::new(31, |i: int| 0i32),
{
}

/// Each of the eight moving directions is streamed in the pass.
pub proof fn lemma_every_moving_direction_streamed(k: int)
    requires
        1 <= k < Q,
    ensures
        schedule_entry(2 * k).pipeline == Pipeline::Stream,
        schedule_entry(2 * k).dynamic_offset == DIRECTION_UNIFORM_STRIDE * k,
        0 <= 2 * k < schedule_len(),
{
}

} // verus!
