//! The simulation's host-side state: its parameters, and what each of its
//! passes asks of the device.
use vstd::prelude::*;
use crate::encoding::{is_native_encoding, native_bytes};
use crate::scalar::Scalar;

verus! {

/// Particles in the standard population.
pub const NUM_PARTICLES: u32 = 131072;

/// Invocations in one workgroup of the update kernel.
pub const WORKGROUP_SIZE: u32 = 64;

/// Encoding of 0.016, the timestep before the first update.
pub const INITIAL_TIMESTEP_BITS: u32 = 0x3C83_126F;

/// Encoding of 0.033, the largest timestep the kernel is ever given.
pub const MAX_TIMESTEP_BITS: u32 = 0x3D07_2B02;

/// Encoding of 1/30 rounded to single precision, which lies above
/// [`MAX_TIMESTEP_BITS`].
pub const THIRTIETH_BITS: u32 = 0x3D08_8889;

/// Encoding of 40000.0, the gravitational parameter of the central mass.
pub const GRAVITY_BITS: u32 = 0x471C_4000;

/// The largest timestep as a scalar.
pub open spec fn max_timestep() -> Scalar {
    Scalar { bits: MAX_TIMESTEP_BITS }
}

/// The record that the update kernel reads: four words, in this order.
#[derive(Clone, Copy, Debug, PartialEq, Eq, Structural)]
pub struct SimulationParams {
    pub dt: Scalar,
    pub gm: Scalar,
    pub particle_count: u32,
    pub _padding: u32,
}

impl SimulationParams {
    /// The record as the words of its uniform buffer.
    pub open spec fn words(self) -> Seq<u32> {
        seq![self.dt.bits, self.gm.bits, self.particle_count, self._padding]
    }

    /// The parameters of a population of `particle_count` particles around a
    /// mass of gravitational parameter `gm`, before the first update.
    pub open spec fn initial(particle_count: u32, gm: Scalar) -> SimulationParams {
        SimulationParams {
            dt: Scalar { bits: INITIAL_TIMESTEP_BITS },
            gm,
            particle_count,
            _padding: 0,
        }
    }
}

/// One dispatch of the update kernel.
#[derive(Clone, Copy, Debug, PartialEq, Eq, Structural)]
pub struct ComputeDispatch {
    /// Index at which the kernel's binding set is bound.
    pub bind_group: u32,
    /// Workgroups along the first axis.
    pub workgroups_x: u32,
    /// Workgroups along the second axis.
    pub workgroups_y: u32,
    /// Workgroups along the third axis.
    pub workgroups_z: u32,
}

/// One draw of the particles as a list of points.
#[derive(Clone, Copy, Debug, PartialEq, Eq, Structural)]
pub struct DrawCall {
    /// Index at which the kernel's binding set is bound.
    pub bind_group: u32,
    /// First vertex drawn.
    pub first_vertex: u32,
    /// One past the last vertex drawn.
    pub end_vertex: u32,
    /// First instance drawn.
    pub first_instance: u32,
    /// One past the last instance drawn.
    pub end_instance: u32,
}

/// The sixteen entries of a view-projection matrix as the words of the
/// camera buffer, in the order given.
pub open spec fn matrix_words(matrix: Seq<Scalar>) -> Seq<u32> {
    Seq::new(matrix.len(), |i: int| matrix[i].bits)
}

/// The least number of groups of `size` that cover `count` items.
pub open spec fn workgroups_needed(count: int, size: int) -> int
    recommends
        count >= 0,
        size > 0,
{
    if count % size == 0 {
        count / size
    } else {
        count / size + 1
    }
}

/// `workgroups_needed` is the ceiling of the quotient: its groups cover the
/// items, and one group fewer would not.
pub proof fn lemma_workgroups_cover(count: int, size: int)
    requires
        count >= 0,
        size > 0,
    ensures
        workgroups_needed(count, size) >= 0,
        workgroups_needed(count, size) * size >= count,
        (workgroups_needed(count, size) - 1) * size < count || count == 0,
        count == 0 ==> workgroups_needed(count, size) == 0,
        workgroups_needed(count, size) <= count,
{
    let q = count / size;
    let r = count % size;
    assert(count == q * size + r && 0 <= r < size) by (nonlinear_arith)
        requires
            q == count / size,
            r == count % size,
            size > 0,
    ;
    assert(q >= 0 && q <= count) by (nonlinear_arith)
        requires
            count == q * size + r,
            0 <= r < size,
            count >= 0,
            size > 0,
    ;
    if r == 0 {
        assert((q - 1) * size == q * size - size) by (nonlinear_arith);
    } else {
        assert((q + 1) * size == q * size + size) by (nonlinear_arith);
        assert(q + 1 <= count) by (nonlinear_arith)
            requires
                count == q * size + r,
                0 < r < size,
                q >= 0,
                size > 0,
        ;
    }
}

/// The number of workgroups of `workgroup_size` that cover
/// `particle_count` particles.
pub fn workgroup_count(particle_count: u32, workgroup_size: u32) -> (n: u32)
    requires
        workgroup_size > 0,
    ensures
        n == workgroups_needed(particle_count as int, workgroup_size as int),
        n * workgroup_size >= particle_count,
        particle_count > 0 ==> (n - 1) * workgroup_size < particle_count,
        particle_count == 0 ==> n == 0,
{
    proof {
        lemma_workgroups_cover(particle_count as int, workgroup_size as int);
    }
    let whole: u32 = particle_count / workgroup_size;
    if particle_count % workgroup_size == 0 {
        whole
    } else {
        whole + 1
    }
}

/// The simulation as the host sees it: the parameter record that mirrors
/// the kernel's uniform buffer.
pub struct Simulation {
    params: SimulationParams,
}

impl View for Simulation {
    type V = SimulationParams;

    closed spec fn view(&self) -> SimulationParams {
        self.params
    }
}

impl Simulation {
    /// The dispatch that advances every particle by one timestep: enough
    /// workgroups of [`WORKGROUP_SIZE`] along the first axis to cover the
    /// population, and one along each other axis.
    pub open spec fn compute_pass_spec(&self) -> ComputeDispatch {
        ComputeDispatch {
            bind_group: 0,
            workgroups_x: workgroups_needed(
                self@.particle_count as int,
                WORKGROUP_SIZE as int,
            ) as u32,
            workgroups_y: 1,
            workgroups_z: 1,
        }
    }

    /// The draw that shows the population: a vertex for each particle, one
    /// instance.
    pub open spec fn render_pass_spec(&self) -> DrawCall {
        DrawCall {
            bind_group: 0,
            first_vertex: 0,
            end_vertex: self@.particle_count,
            first_instance: 0,
            end_instance: 1,
        }
    }

    /// The standard simulation: [`NUM_PARTICLES`] particles around a mass of
    /// gravitational parameter 40000.
    pub fn new() -> (sim: Simulation)
        ensures
            sim@ == SimulationParams::initial(NUM_PARTICLES, Scalar { bits: GRAVITY_BITS }),
    {
        Simulation::with_preset(NUM_PARTICLES, Scalar::from_bits(GRAVITY_BITS))
    }

    /// A simulation of `particle_count` particles around a mass of
    /// gravitational parameter `gm`.
    pub fn with_preset(particle_count: u32, gm: Scalar) -> (sim: Simulation)
        ensures
            sim@ == SimulationParams::initial(particle_count, gm),
    {
        Simulation {
            params: SimulationParams {
                dt: Scalar::from_bits(INITIAL_TIMESTEP_BITS),
                gm,
                particle_count,
                _padding: 0,
            },
        }
    }

    /// The current parameters.
    pub fn params(&self) -> (p: SimulationParams)
        ensures
            p == self@,
    {
        self.params
    }

    /// The bytes of the parameter record, as its uniform buffer holds them.
    pub fn params_bytes(&self) -> (bytes: Vec<u8>)
        ensures
            is_native_encoding(bytes@, self@.words()),
    {
        let mut words: Vec<u32> = Vec::new();
        words.push(self.params.dt.bits);
        words.push(self.params.gm.bits);
        words.push(self.params.particle_count);
        words.push(self.params._padding);
        assert(words@ =~= self@.words());
        native_bytes(&words)
    }

    /// Takes the time that the last frame took as the next timestep, capped
    /// at 0.033 so that a stalled frame cannot destabilise the orbits, and
    /// returns the bytes to write at the start of the parameter buffer.
    ///
    /// A timestep that is a NaN is replaced by the cap.
    pub fn update(&mut self, dt: Scalar) -> (bytes: Vec<u8>)
        ensures
            final(self)@ == (SimulationParams { dt: dt.min_spec(max_timestep()), ..old(self)@ }),
            final(self)@.dt.le(max_timestep()),
            final(self)@.dt.lt(Scalar { bits: THIRTIETH_BITS }),
            is_native_encoding(bytes@, final(self)@.words()),
    {
        self.params.dt = dt.min(Scalar::from_bits(MAX_TIMESTEP_BITS));
        self.params_bytes()
    }

    /// The bytes to write at the start of the camera buffer for the
    /// view-projection matrix `matrix`: its sixteen entries in the order
    /// given, which is the order the render kernel reads them in.
    pub fn update_camera(&self, matrix: &[Scalar; 16]) -> (bytes: Vec<u8>)
        ensures
            is_native_encoding(bytes@, matrix_words(matrix@)),
            bytes@.len() == 64,
    {
        let mut words: Vec<u32> = Vec::new();
        let mut i: usize = 0;
        while i < 16
            invariant
                i <= 16,
                words@ == matrix_words(matrix@.take(i as int)),
            decreases 16 - i,
        {
            words.push(matrix[i].bits);
            assert(words@ =~= matrix_words(matrix@.take(i as int + 1)));
            i = i + 1;
        }
        assert(matrix@.take(16) =~= matrix@);
        native_bytes(&words)
    }

    /// The dispatch that advances every particle by one timestep: enough
    /// workgroups of [`WORKGROUP_SIZE`] along the first axis to cover the
    /// population, and one along each other axis.
    pub fn compute_pass(&self) -> (dispatch: ComputeDispatch)
        ensures
            dispatch == self.compute_pass_spec(),
            dispatch.bind_group == 0,
            dispatch.workgroups_x == workgroups_needed(
                self@.particle_count as int,
                WORKGROUP_SIZE as int,
            ),
            dispatch.workgroups_x * WORKGROUP_SIZE >= self@.particle_count,
            self@.particle_count > 0 ==> (dispatch.workgroups_x - 1) * WORKGROUP_SIZE
                < self@.particle_count,
            dispatch.workgroups_y == 1,
            dispatch.workgroups_z == 1,
    {
        ComputeDispatch {
            bind_group: 0,
            workgroups_x: workgroup_count(self.params.particle_count, WORKGROUP_SIZE),
            workgroups_y: 1,
            workgroups_z: 1,
        }
    }

    /// The draw that shows the population: one vertex for each particle, one
    /// instance.
    pub fn render_pass(&self) -> (draw: DrawCall)
        ensures
            draw == self.render_pass_spec(),
            draw.end_vertex - draw.first_vertex == self@.particle_count,
            draw.end_instance - draw.first_instance == 1,
    {
        DrawCall {
            bind_group: 0,
            first_vertex: 0,
            end_vertex: self.params.particle_count,
            first_instance: 0,
            end_instance: 1,
        }
    }
}

} // verus!
