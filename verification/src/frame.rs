//! What each simulation runs in one frame, and how often.
use vstd::prelude::*;

use crate::setup::{optimized_setup, optimized_setup_spec, OptimizedSetup};
use crate::FlowType;

verus! {

/// A compute pass run during a frame.
#[derive(Clone, Copy, PartialEq, Eq, Structural, Debug)]
pub enum Pass {
    /// Streaming of the two-buffer simulation.
    Stream,
    /// Collision of the two-buffer simulation.
    Collide,
    /// The nine-direction collide-and-stream pass.
    CollideStream,
    /// Boundary cells.
    Boundary,
    /// The collide-and-stream pass of the pigment distributions.
    DiffuseCollideStream,
    /// Boundary cells of the pigment distributions.
    DiffuseBoundary,
    /// Painting the brush into the lattice.
    Interact,
    /// Moving particles or colouring pigment for the renderer.
    Particles,
}

/// The compute passes of one frame of the two-buffer simulation.
pub open spec fn lbm_passes() -> Seq<Pass> {
    seq![Pass::Stream, Pass::Collide, Pass::Particles]
}

/// The compute passes of one frame of the memory-optimised simulation of
/// `flow_type`: collide and stream, boundaries, the pigment passes when
/// pigment diffuses, then the particles.
pub open spec fn optimized_passes(flow_type: FlowType) -> Seq<Pass> {
    if flow_type == FlowType::PigmentsDiffuse {
        seq![
            Pass::CollideStream,
            Pass::Boundary,
            Pass::DiffuseCollideStream,
            Pass::DiffuseBoundary,
            Pass::Particles,
        ]
    } else {
        seq![Pass::CollideStream, Pass::Boundary, Pass::Particles]
    }
}

/// The compute passes of one frame of ink painting: the brush first when it
/// has to be painted.
pub open spec fn ink_passes(paint: bool) -> Seq<Pass> {
    if paint {
        seq![Pass::Interact, Pass::CollideStream, Pass::Particles]
    } else {
        seq![Pass::CollideStream, Pass::Particles]
    }
}

/// The compute passes of one frame of the two-buffer simulation, in order.
pub fn lbm_frame_passes() -> (passes: Vec<Pass>)
    ensures
        passes@ == lbm_passes(),
{
    let passes = vec![Pass::Stream, Pass::Collide, Pass::Particles];
    assert(passes@ == lbm_passes());
    passes
}

/// The compute passes of one frame of the memory-optimised simulation.
pub fn optimized_frame_passes(flow_type: FlowType) -> (passes: Vec<Pass>)
    ensures
        passes@ == optimized_passes(flow_type),
{
    let mut passes = vec![Pass::CollideStream, Pass::Boundary];
    match flow_type {
        FlowType::PigmentsDiffuse => {
            passes.push(Pass::DiffuseCollideStream);
            passes.push(Pass::DiffuseBoundary);
        },
        _ => {},
    }
    passes.push(Pass::Particles);
    assert(passes@ == optimized_passes(flow_type));
    passes
}

/// The compute passes of one frame of ink painting.
pub fn ink_frame_passes(paint: bool) -> (passes: Vec<Pass>)
    ensures
        passes@ == ink_passes(paint),
{
    let mut passes: Vec<Pass> = Vec::new();
    if paint {
        passes.push(Pass::Interact);
    }
    passes.push(Pass::CollideStream);
    passes.push(Pass::Particles);
    assert(passes@ == ink_passes(paint));
    passes
}

/// The order of a frame of the memory-optimised simulation, for every flow:
/// collide and stream first, then the boundaries right after, the pigment
/// passes (pigment diffusion only) next, and the particles last.
pub proof fn lemma_optimized_pass_order(flow_type: FlowType)
    ensures
        optimized_passes(flow_type)[0] == Pass::CollideStream,
        optimized_passes(flow_type)[1] == Pass::Boundary,
        optimized_passes(flow_type).last() == Pass::Particles,
        optimized_passes(flow_type).len() == if flow_type == FlowType::PigmentsDiffuse {
            5int
        } else {
            3int
        },
        flow_type == FlowType::PigmentsDiffuse ==> {
            &&& optimized_passes(flow_type)[2] == Pass::DiffuseCollideStream
            &&& optimized_passes(flow_type)[3] == Pass::DiffuseBoundary
        },
{
}

/// The order of a frame of the two-buffer simulation: streaming, then
/// collision, then the particles.
pub proof fn lemma_lbm_pass_order()
    ensures
        lbm_passes().len() == 3,
        lbm_passes()[0] == Pass::Stream,
        lbm_passes()[1] == Pass::Collide,
        lbm_passes()[2] == Pass::Particles,
{
}

/// The order of a frame of ink painting: the brush first when it is painted
/// (and only then), then collide and stream, then the pigment colours.
pub proof fn lemma_ink_pass_order(paint: bool)
    ensures
        ink_passes(paint).contains(Pass::Interact) <==> paint,
        paint ==> ink_passes(paint)[0] == Pass::Interact,
        ink_passes(paint).len() == if paint {
            3int
        } else {
            2int
        },
        ink_passes(paint)[ink_passes(paint).len() - 2] == Pass::CollideStream,
        ink_passes(paint).last() == Pass::Particles,
{
    if !paint {
        assert(forall|i: int| 0 <= i < 2 ==> #[trigger] ink_passes(paint)[i] != Pass::Interact);
    } else {
        assert(ink_passes(paint)[0] == Pass::Interact);
    }
}

/// A frame of the memory-optimised simulation runs the pigment passes
/// exactly when its set-up built them.
pub proof fn lemma_frame_runs_built_passes(flow_type: FlowType, setup: OptimizedSetup)
    requires
        setup.diffuse is Some <==> flow_type == FlowType::PigmentsDiffuse,
    ensures
        optimized_passes(flow_type).contains(Pass::DiffuseCollideStream) <==> setup.diffuse is Some,
        optimized_passes(flow_type).contains(Pass::DiffuseBoundary) <==> setup.diffuse is Some,
{
    lemma_pigment_passes(flow_type);
}

/// A frame of the memory-optimised simulation runs the pigment passes
/// exactly for pigment diffusion.
pub proof fn lemma_pigment_passes(flow_type: FlowType)
    ensures
        optimized_passes(flow_type).contains(Pass::DiffuseCollideStream) <==> flow_type
            == FlowType::PigmentsDiffuse,
        optimized_passes(flow_type).contains(Pass::DiffuseBoundary) <==> flow_type
            == FlowType::PigmentsDiffuse,
{
    if flow_type == FlowType::PigmentsDiffuse {
        assert(optimized_passes(flow_type)[2] == Pass::DiffuseCollideStream);
        assert(optimized_passes(flow_type)[3] == Pass::DiffuseBoundary);
    } else {
        assert(forall|i: int|
            0 <= i < 3 ==> #[trigger] optimized_passes(flow_type)[i] != Pass::DiffuseCollideStream
                && optimized_passes(flow_type)[i] != Pass::DiffuseBoundary);
    }
}

/// Every frame ends with the particle pass that feeds the renderer, and
/// every pass runs at most once.
pub proof fn lemma_frames_end_with_particles(flow_type: FlowType, paint: bool)
    ensures
        lbm_passes().last() == Pass::Particles,
        optimized_passes(flow_type).last() == Pass::Particles,
        ink_passes(paint).last() == Pass::Particles,
        lbm_passes().no_duplicates(),
        optimized_passes(flow_type).no_duplicates(),
        ink_passes(paint).no_duplicates(),
{
}

/// How many frames pass between two renders of the throttled simulations.
pub const RENDER_INTERVAL: i32 = 10;

/// How many render steps the printed progress counts before it wraps.
pub const PROGRESS_PERIOD: i32 = 60;

/// Frame `n` (counting from one) is rendered by a throttled simulation.
pub open spec fn renders_frame(n: int) -> bool {
    n % RENDER_INTERVAL as int == 0
}

/// `a / b` rounded toward zero, as integer division of `i32`s does.
pub open spec fn div_toward_zero(a: int, b: int) -> int
    recommends
        b > 0,
{
    if a >= 0 {
        a / b
    } else {
        -((-a) / b)
    }
}

/// The remainder of `div_toward_zero`, which takes the sign of `a`.
pub open spec fn rem_toward_zero(a: int, b: int) -> int
    recommends
        b > 0,
{
    a - b * div_toward_zero(a, b)
}

/// The progress printed at frame count `swap`: the renders so far (counted
/// toward zero) modulo `PROGRESS_PERIOD`, with the sign of the count.
pub open spec fn progress_at(swap: int) -> int {
    rem_toward_zero(div_toward_zero(swap, RENDER_INTERVAL as int), PROGRESS_PERIOD as int)
}

/// Counts the frames a simulation has entered.
#[derive(Clone, Copy, PartialEq, Eq, Structural, Debug)]
pub struct FrameCounter {
    pub swap: i32,
}

impl FrameCounter {
    /// No frame entered yet.
    pub fn new() -> (counter: Self)
        ensures
            counter.swap == 0,
    {
        FrameCounter { swap: 0 }
    }

    /// Enters a frame; returns whether a throttled simulation renders it.
    pub fn enter_frame(&mut self) -> (render: bool)
        requires
            old(self).swap < i32::MAX,
        ensures
            final(self).swap == old(self).swap + 1,
            render == renders_frame(final(self).swap as int),
    {
        self.swap = self.swap + 1;
        self.swap % 10 == 0
    }

    /// The number of renders so far, modulo `PROGRESS_PERIOD`.
    pub fn progress(&self) -> (step: i32)
        ensures
            step == progress_at(self.swap as int),
            0 <= self.swap ==> step == (self.swap as int / RENDER_INTERVAL as int)
                % PROGRESS_PERIOD as int,
    {
        (self.swap / 10) % 60
    }
}

/// A throttled simulation renders the frames whose count is a multiple of
/// ten, and from a non-negative count prints the number of renders so far
/// modulo sixty.
pub proof fn lemma_throttle(n: int)
    ensures
        renders_frame(n) <==> n % 10 == 0,
        n >= 0 ==> progress_at(n) == (n / 10) % 60,
        n < 0 ==> progress_at(n) == -(((-n) / 10) % 60),
{
}

/// Of any ten consecutive frames, a throttled simulation renders exactly one.
pub proof fn lemma_one_render_in_ten(start: int)
    requires
        0 <= start,
    ensures
        renders_frame(start + RENDER_INTERVAL - start % RENDER_INTERVAL as int),
        start < start + RENDER_INTERVAL - start % RENDER_INTERVAL as int <= start
            + RENDER_INTERVAL,
        forall|k: int|
            start < k <= start + RENDER_INTERVAL && #[trigger] renders_frame(k) ==> k == start
                + RENDER_INTERVAL - start % RENDER_INTERVAL as int,
{
}

/// The number of frames among frames `1..=n` that a throttled simulation
/// renders.
pub open spec fn renders_in(n: nat) -> nat
    decreases n,
{
    if n == 0 {
        0
    } else {
        renders_in((n - 1) as nat) + if renders_frame(n as int) {
            1nat
        } else {
            0nat
        }
    }
}

/// Over the first `n` frames a throttled simulation renders `n / 10` times.
pub proof fn lemma_renders_in(n: nat)
    ensures
        renders_in(n) == n / RENDER_INTERVAL as nat,
    decreases n,
{
    if n > 0 {
        lemma_renders_in((n - 1) as nat);
    }
}

/// The `k`-th render happens at frame `10 k` and prints `k % 60`.
pub proof fn lemma_kth_render(k: int)
    requires
        1 <= k,
    ensures
        renders_frame(RENDER_INTERVAL * k),
        renders_in((RENDER_INTERVAL * k) as nat) == k,
        progress_at(RENDER_INTERVAL * k) == k % PROGRESS_PERIOD as int,
{
    lemma_renders_in((RENDER_INTERVAL * k) as nat);
}

/// The frame state of the memory-optimised simulation: its flow, whether its
/// pigment passes were built, and the frames entered.
#[derive(Clone, Copy, PartialEq, Eq, Structural, Debug)]
pub struct OptimizedFlow {
    pub flow_type: FlowType,
    pub has_diffuse_passes: bool,
    pub frames: FrameCounter,
}

/// The pigment passes exist exactly for pigment diffusion.
pub open spec fn optimized_flow_wf(s: OptimizedFlow) -> bool {
    s.has_diffuse_passes <==> s.flow_type == FlowType::PigmentsDiffuse
}

/// The state after one frame from `s`.
pub open spec fn after_optimized_frame(s: OptimizedFlow) -> OptimizedFlow {
    OptimizedFlow { frames: FrameCounter { swap: (s.frames.swap + 1) as i32 }, ..s }
}

impl OptimizedFlow {
    /// Sets up the memory-optimised simulation of `flow_type` and its frame
    /// state.
    pub fn start(flow_type: FlowType, is_macos: bool) -> (started: (Self, OptimizedSetup))
        requires
            flow_type != FlowType::Ink,
        ensures
            optimized_flow_wf(started.0),
            started.0.flow_type == flow_type,
            started.0.frames.swap == 0,
            started.0.has_diffuse_passes <==> started.1.diffuse is Some,
            optimized_setup_spec(started.1, flow_type, is_macos),
    {
        let setup = optimized_setup(flow_type, is_macos);
        let has_diffuse_passes = setup.diffuse.is_some();
        (OptimizedFlow { flow_type, has_diffuse_passes, frames: FrameCounter::new() }, setup)
    }

    /// Enters a frame: returns the compute passes to run, in order.
    pub fn enter_frame(&mut self) -> (passes: Vec<Pass>)
        requires
            old(self).frames.swap < i32::MAX,
        ensures
            *final(self) == after_optimized_frame(*old(self)),
            passes@ == optimized_passes(old(self).flow_type),
    {
        self.frames.enter_frame();
        optimized_frame_passes(self.flow_type)
    }
}

/// Whatever frames pass, the memory-optimised simulation keeps its flow and
/// its pigment passes, and each frame runs the pigment passes exactly when
/// they were built.
pub proof fn lemma_optimized_flow_keeps_its_passes(s: OptimizedFlow)
    requires
        optimized_flow_wf(s),
        s.frames.swap < i32::MAX,
    ensures
        optimized_flow_wf(after_optimized_frame(s)),
        after_optimized_frame(s).flow_type == s.flow_type,
        after_optimized_frame(s).has_diffuse_passes == s.has_diffuse_passes,
        optimized_passes(s.flow_type).contains(Pass::DiffuseCollideStream)
            <==> s.has_diffuse_passes,
        optimized_passes(s.flow_type).contains(Pass::DiffuseBoundary) <==> s.has_diffuse_passes,
{
    lemma_pigment_passes(s.flow_type);
}

} // verus!
