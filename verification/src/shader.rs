//! The compute and render shaders of the simulations, by name.
use vstd::prelude::*;

verus! {

/// A shader of the simulations; its source lives under the path that
/// `Shader::path` gives.
#[derive(Clone, Copy, PartialEq, Eq, Structural, Debug)]
pub enum Shader {
    /// Streaming step of the open channel and of pigment diffusion.
    LbmPoiseuilleStream,
    /// Streaming step of the lid-driven cavity.
    LbmLidDrivenStream,
    /// BGK collision.
    LbmCollide,
    /// Initial equilibrium distributions.
    LbmInit,
    /// Advects the trajectory particles.
    LbmParticleMove,
    /// Draws the particle canvas.
    LbmParticlePresenting,
    /// Fades the particle canvas.
    LbmFadeOut,
    /// Boundary cells of the channel and of pigment diffusion.
    Boundary,
    /// Boundary cells of the lid-driven cavity.
    LidDrivenBoundary,
    /// Per-direction collision.
    Collide,
    /// Per-direction streaming.
    Stream,
    /// Initial distributions.
    Init,
    /// Collision of the pigment distributions.
    DiffuseCollide,
    /// Streaming of the pigment distributions.
    DiffuseStream,
    /// Boundary cells of the pigment distributions.
    DiffuseBoundary,
    /// Collision that advects pigment with the flow.
    DiffuseAdvectCollide,
    /// Initial flow and pigment distributions.
    DiffuseInit,
    /// Paints ink under the touch point.
    InkInteract,
    /// Collision of the ink flow.
    InkCollide,
    /// Streaming of the ink flow.
    InkStream,
    /// Initial ink flow.
    InkInit,
    /// Propagation of the stand-alone channel.
    ChannelPropagate,
    /// Collision of the stand-alone channel.
    ChannelCollide,
    /// Initial state of the stand-alone channel.
    ChannelInit,
    /// Semi-Lagrangian advection of the smoke.
    SmokeAdvect,
    /// Moves particles through a vector field.
    FieldParticles,
    /// Fills the vector field.
    VectorField,
}

/// The path of the source of shader `s`, relative to the shader folder.
pub open spec fn shader_path(s: Shader) -> Seq<char> {
    match s {
        Shader::LbmPoiseuilleStream => "lbm/poiseuille_stream"@,
        Shader::LbmLidDrivenStream => "lbm/lid_driven_stream"@,
        Shader::LbmCollide => "lbm/d2q9_collide"@,
        Shader::LbmInit => "lbm/d2q9_init"@,
        Shader::LbmParticleMove => "lbm/particle_move"@,
        Shader::LbmParticlePresenting => "lbm/particle_presenting"@,
        Shader::LbmFadeOut => "lbm/fade_out"@,
        Shader::Boundary => "optimized_mem_lbm/boundary"@,
        Shader::LidDrivenBoundary => "optimized_mem_lbm/lid_driven_boundary"@,
        Shader::Collide => "optimized_mem_lbm/collide"@,
        Shader::Stream => "optimized_mem_lbm/stream"@,
        Shader::Init => "optimized_mem_lbm/init"@,
        Shader::DiffuseCollide => "optimized_mem_lbm/diffuse/collide"@,
        Shader::DiffuseStream => "optimized_mem_lbm/diffuse/stream"@,
        Shader::DiffuseBoundary => "optimized_mem_lbm/diffuse/boundary"@,
        Shader::DiffuseAdvectCollide => "optimized_mem_lbm/diffuse/advect_collide"@,
        Shader::DiffuseInit => "optimized_mem_lbm/diffuse/init"@,
        Shader::InkInteract => "optimized_mem_lbm/ink/interact"@,
        Shader::InkCollide => "optimized_mem_lbm/ink/collide"@,
        Shader::InkStream => "optimized_mem_lbm/ink/stream"@,
        Shader::InkInit => "optimized_mem_lbm/ink/init"@,
        Shader::ChannelPropagate => "fluid/poiseuille_propagate"@,
        Shader::ChannelCollide => "fluid/poiseuille_collide"@,
        Shader::ChannelInit => "fluid/poiseuille_init"@,
        Shader::SmokeAdvect => "nse/advect"@,
        Shader::FieldParticles => "particle/particle"@,
        Shader::VectorField => "particle/vector_field"@,
    }
}

/// The shader whose path is `p`, told apart by the length of the path and
/// its eighth character from the end.
spec fn shader_named(p: Seq<char>) -> Shader {
    if p.len() == 21 && p[21 - 8] == 'e' {
        Shader::LbmPoiseuilleStream
    } else if p.len() == 21 && p[21 - 8] == 'n' {
        Shader::LbmLidDrivenStream
    } else if p.len() == 16 && p[16 - 8] == '_' {
        Shader::LbmCollide
    } else if p.len() == 13 && p[13 - 8] == '2' {
        Shader::LbmInit
    } else if p.len() == 17 && p[17 - 8] == 'c' {
        Shader::LbmParticleMove
    } else if p.len() == 23 && p[23 - 8] == 'e' {
        Shader::LbmParticlePresenting
    } else if p.len() == 12 && p[12 - 8] == 'f' {
        Shader::LbmFadeOut
    } else if p.len() == 26 && p[26 - 8] == 'b' {
        Shader::Boundary
    } else if p.len() == 37 && p[37 - 8] == 'b' {
        Shader::LidDrivenBoundary
    } else if p.len() == 25 && p[25 - 8] == '/' {
        Shader::Collide
    } else if p.len() == 24 && p[24 - 8] == 'm' {
        Shader::Stream
    } else if p.len() == 22 && p[22 - 8] == 'l' {
        Shader::Init
    } else if p.len() == 33 && p[33 - 8] == '/' {
        Shader::DiffuseCollide
    } else if p.len() == 32 && p[32 - 8] == 'e' {
        Shader::DiffuseStream
    } else if p.len() == 34 && p[34 - 8] == 'b' {
        Shader::DiffuseBoundary
    } else if p.len() == 40 && p[40 - 8] == '_' {
        Shader::DiffuseAdvectCollide
    } else if p.len() == 30 && p[30 - 8] == 'u' {
        Shader::DiffuseInit
    } else if p.len() == 30 && p[30 - 8] == 'i' {
        Shader::InkInteract
    } else if p.len() == 29 && p[29 - 8] == '/' {
        Shader::InkCollide
    } else if p.len() == 28 && p[28 - 8] == 'k' {
        Shader::InkStream
    } else if p.len() == 26 && p[26 - 8] == 'i' {
        Shader::InkInit
    } else if p.len() == 26 && p[26 - 8] == 'r' {
        Shader::ChannelPropagate
    } else if p.len() == 24 && p[24 - 8] == '_' {
        Shader::ChannelCollide
    } else if p.len() == 21 && p[21 - 8] == 'l' {
        Shader::ChannelInit
    } else if p.len() == 10 && p[10 - 8] == 'e' {
        Shader::SmokeAdvect
    } else if p.len() == 17 && p[17 - 8] == 'p' {
        Shader::FieldParticles
    } else {
        Shader::VectorField
    }
}

/// Every shader is the one its path names.
proof fn lemma_path_names_shader(s: Shader)
    ensures
        shader_named(shader_path(s)) == s,
{
    match s {
        Shader::LbmPoiseuilleStream => {
            reveal_strlit("lbm/poiseuille_stream");
        },
        Shader::LbmLidDrivenStream => {
            reveal_strlit("lbm/lid_driven_stream");
        },
        Shader::LbmCollide => {
            reveal_strlit("lbm/d2q9_collide");
        },
        Shader::LbmInit => {
            reveal_strlit("lbm/d2q9_init");
        },
        Shader::LbmParticleMove => {
            reveal_strlit("lbm/particle_move");
        },
        Shader::LbmParticlePresenting => {
            reveal_strlit("lbm/particle_presenting");
        },
        Shader::LbmFadeOut => {
            reveal_strlit("lbm/fade_out");
        },
        Shader::Boundary => {
            reveal_strlit("optimized_mem_lbm/boundary");
        },
        Shader::LidDrivenBoundary => {
            reveal_strlit("optimized_mem_lbm/lid_driven_boundary");
        },
        Shader::Collide => {
            reveal_strlit("optimized_mem_lbm/collide");
        },
        Shader::Stream => {
            reveal_strlit("optimized_mem_lbm/stream");
        },
        Shader::Init => {
            reveal_strlit("optimized_mem_lbm/init");
        },
        Shader::DiffuseCollide => {
            reveal_strlit("optimized_mem_lbm/diffuse/collide");
        },
        Shader::DiffuseStream => {
            reveal_strlit("optimized_mem_lbm/diffuse/stream");
        },
        Shader::DiffuseBoundary => {
            reveal_strlit("optimized_mem_lbm/diffuse/boundary");
        },
        Shader::DiffuseAdvectCollide => {
            reveal_strlit("optimized_mem_lbm/diffuse/advect_collide");
        },
        Shader::DiffuseInit => {
            reveal_strlit("optimized_mem_lbm/diffuse/init");
        },
        Shader::InkInteract => {
            reveal_strlit("optimized_mem_lbm/ink/interact");
        },
        Shader::InkCollide => {
            reveal_strlit("optimized_mem_lbm/ink/collide");
        },
        Shader::InkStream => {
            reveal_strlit("optimized_mem_lbm/ink/stream");
        },
        Shader::InkInit => {
            reveal_strlit("optimized_mem_lbm/ink/init");
        },
        Shader::ChannelPropagate => {
            reveal_strlit("fluid/poiseuille_propagate");
        },
        Shader::ChannelCollide => {
            reveal_strlit("fluid/poiseuille_collide");
        },
        Shader::ChannelInit => {
            reveal_strlit("fluid/poiseuille_init");
        },
        Shader::SmokeAdvect => {
            reveal_strlit("nse/advect");
        },
        Shader::FieldParticles => {
            reveal_strlit("particle/particle");
        },
        Shader::VectorField => {
            reveal_strlit("particle/vector_field");
        },
    }
}

/// Distinct shaders load distinct sources: no two shaders share a path.
pub proof fn lemma_paths_distinct(a: Shader, b: Shader)
    requires
        a != b,
    ensures
        shader_path(a) != shader_path(b),
{
    lemma_path_names_shader(a);
    lemma_path_names_shader(b);
}

/// `p` ends with `suffix`.
pub open spec fn ends_with(p: Seq<char>, suffix: Seq<char>) -> bool {
    suffix.len() <= p.len() && p.subrange(p.len() - suffix.len(), p.len() as int) == suffix
}

/// Each shader's path names its role: collision shaders end in `collide`,
/// streaming shaders in `stream`, initialisation shaders in `init`,
/// boundary shaders in `boundary`, the channel's propagation shader in
/// `propagate` and the smoke advection in `advect`.
pub proof fn lemma_paths_name_roles(s: Shader)
    ensures
        (s == Shader::LbmCollide || s == Shader::Collide || s == Shader::DiffuseCollide || s == Shader::DiffuseAdvectCollide || s == Shader::InkCollide || s == Shader::ChannelCollide) ==> ends_with(shader_path(s), "collide"@),
        (s == Shader::LbmPoiseuilleStream || s == Shader::LbmLidDrivenStream || s == Shader::Stream || s == Shader::DiffuseStream || s == Shader::InkStream) ==> ends_with(shader_path(s), "stream"@),
        (s == Shader::LbmInit || s == Shader::Init || s == Shader::DiffuseInit || s == Shader::InkInit || s == Shader::ChannelInit) ==> ends_with(shader_path(s), "init"@),
        (s == Shader::Boundary || s == Shader::LidDrivenBoundary || s == Shader::DiffuseBoundary) ==> ends_with(shader_path(s), "boundary"@),
        (s == Shader::ChannelPropagate) ==> ends_with(shader_path(s), "propagate"@),
        (s == Shader::SmokeAdvect) ==> ends_with(shader_path(s), "advect"@),
{
    match s {
        Shader::LbmPoiseuilleStream => {
            reveal_strlit("lbm/poiseuille_stream");
            reveal_strlit("stream");
            let p = shader_path(s);
            assert(p.subrange(p.len() - 6, p.len() as int) =~= "stream"@);
        },
        Shader::LbmLidDrivenStream => {
            reveal_strlit("lbm/lid_driven_stream");
            reveal_strlit("stream");
            let p = shader_path(s);
            assert(p.subrange(p.len() - 6, p.len() as int) =~= "stream"@);
        },
        Shader::LbmCollide => {
            reveal_strlit("lbm/d2q9_collide");
            reveal_strlit("collide");
            let p = shader_path(s);
            assert(p.subrange(p.len() - 7, p.len() as int) =~= "collide"@);
        },
        Shader::LbmInit => {
            reveal_strlit("lbm/d2q9_init");
            reveal_strlit("init");
            let p = shader_path(s);
            assert(p.subrange(p.len() - 4, p.len() as int) =~= "init"@);
        },
        Shader::LbmParticleMove => {},
        Shader::LbmParticlePresenting => {},
        Shader::LbmFadeOut => {},
        Shader::Boundary => {
            reveal_strlit("optimized_mem_lbm/boundary");
            reveal_strlit("boundary");
            let p = shader_path(s);
            assert(p.subrange(p.len() - 8, p.len() as int) =~= "boundary"@);
        },
        Shader::LidDrivenBoundary => {
            reveal_strlit("optimized_mem_lbm/lid_driven_boundary");
            reveal_strlit("boundary");
            let p = shader_path(s);
            assert(p.subrange(p.len() - 8, p.len() as int) =~= "boundary"@);
        },
        Shader::Collide => {
            reveal_strlit("optimized_mem_lbm/collide");
            reveal_strlit("collide");
            let p = shader_path(s);
            assert(p.subrange(p.len() - 7, p.len() as int) =~= "collide"@);
        },
        Shader::Stream => {
            reveal_strlit("optimized_mem_lbm/stream");
            reveal_strlit("stream");
            let p = shader_path(s);
            assert(p.subrange(p.len() - 6, p.len() as int) =~= "stream"@);
        },
        Shader::Init => {
            reveal_strlit("optimized_mem_lbm/init");
            reveal_strlit("init");
            let p = shader_path(s);
            assert(p.subrange(p.len() - 4, p.len() as int) =~= "init"@);
        },
        Shader::DiffuseCollide => {
            reveal_strlit("optimized_mem_lbm/diffuse/collide");
            reveal_strlit("collide");
            let p = shader_path(s);
            assert(p.subrange(p.len() - 7, p.len() as int) =~= "collide"@);
        },
        Shader::DiffuseStream => {
            reveal_strlit("optimized_mem_lbm/diffuse/stream");
            reveal_strlit("stream");
            let p = shader_path(s);
            assert(p.subrange(p.len() - 6, p.len() as int) =~= "stream"@);
        },
        Shader::DiffuseBoundary => {
            reveal_strlit("optimized_mem_lbm/diffuse/boundary");
            reveal_strlit("boundary");
            let p = shader_path(s);
            assert(p.subrange(p.len() - 8, p.len() as int) =~= "boundary"@);
        },
        Shader::DiffuseAdvectCollide => {
            reveal_strlit("optimized_mem_lbm/diffuse/advect_collide");
            reveal_strlit("collide");
            let p = shader_path(s);
            assert(p.subrange(p.len() - 7, p.len() as int) =~= "collide"@);
        },
        Shader::DiffuseInit => {
            reveal_strlit("optimized_mem_lbm/diffuse/init");
            reveal_strlit("init");
            let p = shader_path(s);
            assert(p.subrange(p.len() - 4, p.len() as int) =~= "init"@);
        },
        Shader::InkInteract => {},
        Shader::InkCollide => {
            reveal_strlit("optimized_mem_lbm/ink/collide");
            reveal_strlit("collide");
            let p = shader_path(s);
            assert(p.subrange(p.len() - 7, p.len() as int) =~= "collide"@);
        },
        Shader::InkStream => {
            reveal_strlit("optimized_mem_lbm/ink/stream");
            reveal_strlit("stream");
            let p = shader_path(s);
            assert(p.subrange(p.len() - 6, p.len() as int) =~= "stream"@);
        },
        Shader::InkInit => {
            reveal_strlit("optimized_mem_lbm/ink/init");
            reveal_strlit("init");
            let p = shader_path(s);
            assert(p.subrange(p.len() - 4, p.len() as int) =~= "init"@);
        },
        Shader::ChannelPropagate => {
            reveal_strlit("fluid/poiseuille_propagate");
            reveal_strlit("propagate");
            let p = shader_path(s);
            assert(p.subrange(p.len() - 9, p.len() as int) =~= "propagate"@);
        },
        Shader::ChannelCollide => {
            reveal_strlit("fluid/poiseuille_collide");
            reveal_strlit("collide");
            let p = shader_path(s);
            assert(p.subrange(p.len() - 7, p.len() as int) =~= "collide"@);
        },
        Shader::ChannelInit => {
            reveal_strlit("fluid/poiseuille_init");
            reveal_strlit("init");
            let p = shader_path(s);
            assert(p.subrange(p.len() - 4, p.len() as int) =~= "init"@);
        },
        Shader::SmokeAdvect => {
            reveal_strlit("nse/advect");
            reveal_strlit("advect");
            let p = shader_path(s);
            assert(p.subrange(p.len() - 6, p.len() as int) =~= "advect"@);
        },
        Shader::FieldParticles => {},
        Shader::VectorField => {},
    }
}

impl Shader {
    /// The path of the source of this shader, relative to the shader folder.
    pub fn path(&self) -> (path: &'static str)
        ensures
            path@ == shader_path(*self),
    {
        match self {
            Shader::LbmPoiseuilleStream => "lbm/poiseuille_stream",
            Shader::LbmLidDrivenStream => "lbm/lid_driven_stream",
            Shader::LbmCollide => "lbm/d2q9_collide",
            Shader::LbmInit => "lbm/d2q9_init",
            Shader::LbmParticleMove => "lbm/particle_move",
            Shader::LbmParticlePresenting => "lbm/particle_presenting",
            Shader::LbmFadeOut => "lbm/fade_out",
            Shader::Boundary => "optimized_mem_lbm/boundary",
            Shader::LidDrivenBoundary => "optimized_mem_lbm/lid_driven_boundary",
            Shader::Collide => "optimized_mem_lbm/collide",
            Shader::Stream => "optimized_mem_lbm/stream",
            Shader::Init => "optimized_mem_lbm/init",
            Shader::DiffuseCollide => "optimized_mem_lbm/diffuse/collide",
            Shader::DiffuseStream => "optimized_mem_lbm/diffuse/stream",
            Shader::DiffuseBoundary => "optimized_mem_lbm/diffuse/boundary",
            Shader::DiffuseAdvectCollide => "optimized_mem_lbm/diffuse/advect_collide",
            Shader::DiffuseInit => "optimized_mem_lbm/diffuse/init",
            Shader::InkInteract => "optimized_mem_lbm/ink/interact",
            Shader::InkCollide => "optimized_mem_lbm/ink/collide",
            Shader::InkStream => "optimized_mem_lbm/ink/stream",
            Shader::InkInit => "optimized_mem_lbm/ink/init",
            Shader::ChannelPropagate => "fluid/poiseuille_propagate",
            Shader::ChannelCollide => "fluid/poiseuille_collide",
            Shader::ChannelInit => "fluid/poiseuille_init",
            Shader::SmokeAdvect => "nse/advect",
            Shader::FieldParticles => "particle/particle",
            Shader::VectorField => "particle/vector_field",
        }
    }
}

} // verus!
