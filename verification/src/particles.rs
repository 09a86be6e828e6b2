//! The particle population: who is seeded where, and how the population
//! lies in its device buffer.
use vstd::prelude::*;
use crate::encoding::{is_native_encoding, native_bytes};
use crate::scalar::{Scalar, Vector3};

verus! {

/// Particles seeded near the centre under [`Profile::CloseStarsAndStream`].
pub const CLOSE_STARS: u32 = 500;

/// One point mass: where it is and how it moves.
#[derive(Clone, Copy, Debug, PartialEq, Eq, Structural)]
pub struct Particle {
    pub position: Vector3,
    pub velocity: Vector3,
}

impl Particle {
    /// The particle as the words of its buffer entry: position, then
    /// velocity, each as x, y, z.
    pub open spec fn words(self) -> Seq<u32> {
        seq![
            self.position.x.bits,
            self.position.y.bits,
            self.position.z.bits,
            self.velocity.x.bits,
            self.velocity.y.bits,
            self.velocity.z.bits,
        ]
    }
}

/// The words of a whole population, particle after particle.
pub open spec fn population_words(particles: Seq<Particle>) -> Seq<u32> {
    Seq::new(6 * particles.len(), |i: int| particles[i / 6].words()[i % 6])
}

/// How the initial population is laid out. A population follows one profile;
/// the two are never mixed.
#[derive(Clone, Copy, Debug, PartialEq, Eq, Structural)]
pub enum Profile {
    /// Every particle on a circular orbit in a disk.
    GalaxyDisk,
    /// A few stars orbiting close to the centre, and a stream falling in.
    CloseStarsAndStream,
}

/// The sub-population that a particle is seeded in.
#[derive(Clone, Copy, Debug, PartialEq, Eq, Structural)]
pub enum Origin {
    /// On a circular orbit in the disk.
    Disk,
    /// On a slowed circular orbit close to the centre.
    CloseStar,
    /// In the parallel stream.
    Stream,
}

/// The sub-population of the particle at `index`.
pub open spec fn origin_spec(profile: Profile, index: u32) -> Origin {
    match profile {
        Profile::GalaxyDisk => Origin::Disk,
        Profile::CloseStarsAndStream => if index < CLOSE_STARS {
            Origin::CloseStar
        } else {
            Origin::Stream
        },
    }
}

/// The sub-population of the particle at `index`: under
/// [`Profile::CloseStarsAndStream`] the first [`CLOSE_STARS`] particles are
/// close stars and all later ones belong to the stream.
pub fn origin_of(profile: Profile, index: u32) -> (origin: Origin)
    ensures
        origin == origin_spec(profile, index),
{
    match profile {
        Profile::GalaxyDisk => Origin::Disk,
        Profile::CloseStarsAndStream => if index < CLOSE_STARS {
            Origin::CloseStar
        } else {
            Origin::Stream
        },
    }
}

/// A radius that an orbital speed can be computed from: `sampled` where it
/// is at least `floor`, and `floor` otherwise, also for a NaN.
pub fn orbit_radius(sampled: Scalar, floor: Scalar) -> (radius: Scalar)
    requires
        (Scalar { bits: 0 }).lt(floor),
    ensures
        radius == (if floor.le(sampled) { sampled } else { floor }),
        floor.le(radius),
        (Scalar { bits: 0 }).lt(radius),
{
    if sampled.less_than(floor) || sampled.is_nan() {
        floor
    } else {
        sampled
    }
}

/// The contents of the particle buffer: six words for each particle, in the
/// order of the population.
pub fn particle_bytes(particles: &Vec<Particle>) -> (bytes: Vec<u8>)
    ensures
        is_native_encoding(bytes@, population_words(particles@)),
{
    let mut words: Vec<u32> = Vec::new();
    let mut i: usize = 0;
    while i < particles.len()
        invariant
            i <= particles.len(),
            words@ == population_words(particles@.take(i as int)),
        decreases particles.len() - i,
    {
        let p: Particle = particles[i];
        let ghost before = words@;
        words.push(p.position.x.bits);
        words.push(p.position.y.bits);
        words.push(p.position.z.bits);
        words.push(p.velocity.x.bits);
        words.push(p.velocity.y.bits);
        words.push(p.velocity.z.bits);
        proof {
            let next = population_words(particles@.take(i as int + 1));
            assert(words@.len() == next.len());
            assert forall|k: int| 0 <= k < next.len() implies words@[k] == next[k] by {
                if k < 6 * i {
                    assert(before[k] == particles@.take(i as int)[k / 6].words()[k % 6]);
                } else {
                    assert(k / 6 == i as int);
                }
            }
            assert(words@ =~= next);
        }
        i = i + 1;
    }
    assert(particles@.take(i as int) =~= particles@);
    native_bytes(&words)
}

} // verus!
