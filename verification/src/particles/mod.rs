//! Particle bookkeeping: kinds, the emitters' random stream and the size of
//! the compute dispatch.
use vstd::prelude::*;
use vstd::arithmetic::div_mod::{lemma_add_mod_noop, lemma_fundamental_div_mod_converse};

verus! {

/// Particles simulated per compute workgroup.
pub const PARTICLE_WORKGROUP_SIZE: u32 = 64;

/// Kind of particle; selects the size and fade curves and the sprite.
#[derive(Clone, Copy, Debug, PartialEq, Eq, Structural)]
pub enum ParticleKind {
    Fire,
    Spark,
    Smoke,
    Debris,
}

/// Slot of a kind in the shader: fire 0, spark 1, smoke 2, debris 3.
pub open spec fn kind_index(kind: ParticleKind) -> u32 {
    match kind {
        ParticleKind::Fire => 0,
        ParticleKind::Spark => 1,
        ParticleKind::Smoke => 2,
        ParticleKind::Debris => 3,
    }
}

impl ParticleKind {
    /// Slot of the kind in the shader's instance data.
    pub fn gpu_index(&self) -> (r: u32)
        ensures
            r == kind_index(*self),
    {
        match self {
            ParticleKind::Fire => 0,
            ParticleKind::Spark => 1,
            ParticleKind::Smoke => 2,
            ParticleKind::Debris => 3,
        }
    }
}

/// One step of the emitters' linear congruential generator (Numerical Recipes
/// constants), modulo 2^32.
pub open spec fn lcg_step(seed: u32) -> u32 {
    ((seed as int * 1664525 + 1013904223) % 0x1_0000_0000) as u32
}

proof fn lemma_lcg_wrapping(s: int)
    requires
        0 <= s < 0x1_0000_0000,
    ensures
        ({
            let w = (s * 1664525) % 0x1_0000_0000;
            let t = if w + 1013904223 > u32::MAX { w + 1013904223 - 0x1_0000_0000 } else { w + 1013904223 };
            t == (s * 1664525 + 1013904223) % 0x1_0000_0000
        }),
{
    let m: int = 0x1_0000_0000;
    let x = s * 1664525;
    let w = x % m;
    lemma_add_mod_noop(x, 1013904223, m);
    assert(1013904223int % m == 1013904223);
    if w + 1013904223 >= m {
        lemma_fundamental_div_mod_converse(w + 1013904223, m, 1, w + 1013904223 - m);
    } else {
        lemma_fundamental_div_mod_converse(w + 1013904223, m, 0, w + 1013904223);
    }
}

/// Advances `seed` and returns its top 24 bits: a random fraction's
/// numerator over 2^24.
pub fn next_random_fraction(seed: &mut u32) -> (r: u32)
    ensures
        *final(seed) == lcg_step(*old(seed)),
        r == lcg_step(*old(seed)) / 256,
        r < 0x100_0000,
{
    let s = *seed;
    let next = s.wrapping_mul(1664525).wrapping_add(1013904223);
    proof {
        lemma_lcg_wrapping(s as int);
    }
    *seed = next;
    next / 256
}

/// Particles simulated and workgroups dispatched for `live` particles in a
/// system of capacity `max_particles`: the count is capped by the capacity,
/// converted to `u32` (truncating, as `as` does), then rounded up to whole
/// workgroups of 64; the rounding must not overflow `u32`.
pub fn compute_dispatch_size(live: usize, max_particles: usize) -> (r: (u32, u32))
    requires
        (if live <= max_particles { live } else { max_particles }) as u32 <= u32::MAX - 63,
    ensures
        r.0 == (if live <= max_particles { live } else { max_particles }) as u32,
        r.1 == (r.0 + 63) / 64,
        (r.1 as int) * 64 >= r.0,
        r.0 > (r.1 as int - 1) * 64 || r.1 == 0,
{
    let capped = if live <= max_particles { live } else { max_particles };
    let count = #[verifier::truncate] (capped as u32);
    let workgroups = (count + 63) / PARTICLE_WORKGROUP_SIZE;
    (count, workgroups)
}

} // verus!
