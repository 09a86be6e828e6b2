//! The device resources of the simulation and how the two kernels see them.
//!
//! The kernels are compiled elsewhere; what is fixed here is their binding
//! contract: which buffer sits in which slot, who may write it, and how each
//! buffer must be created for that to be allowed.
use vstd::prelude::*;

verus! {

/// Bytes of one particle in the particle buffer: six words.
pub const PARTICLE_STRIDE: u64 = 24;

/// Bytes of the parameter record: four words.
pub const PARAMS_SIZE: u64 = 16;

/// Bytes of the camera buffer: a matrix of four by four words.
pub const CAMERA_SIZE: u64 = 64;

/// The three buffers of the simulation.
#[derive(Clone, Copy, Debug, PartialEq, Eq, Structural)]
pub enum BufferId {
    /// Every particle's position and velocity.
    Particles,
    /// The parameter record.
    Params,
    /// The view-projection matrix.
    Camera,
}

/// What a buffer may be used for.
#[derive(Clone, Copy, Debug, PartialEq, Eq, Structural)]
pub struct BufferUsage {
    /// Bound as a storage buffer.
    pub storage: bool,
    /// Read as vertex data.
    pub vertex: bool,
    /// Bound as a uniform buffer.
    pub uniform: bool,
    /// Written by the host through the queue.
    pub copy_dst: bool,
}

/// How one buffer is created.
#[derive(Clone, Copy, Debug, PartialEq, Eq, Structural)]
pub struct BufferPlan {
    pub id: BufferId,
    /// Size in bytes.
    pub size: u64,
    pub usage: BufferUsage,
}

/// The two kernels.
#[derive(Clone, Copy, Debug, PartialEq, Eq, Structural)]
pub enum Kernel {
    /// The compute kernel that advances the particles.
    Update,
    /// The render kernel that draws them.
    Render,
}

/// The shader stage that a binding is visible to.
#[derive(Clone, Copy, Debug, PartialEq, Eq, Structural)]
pub enum Stage {
    Compute,
    Vertex,
}

/// How a kernel reaches a buffer.
#[derive(Clone, Copy, Debug, PartialEq, Eq, Structural)]
pub enum Access {
    /// A storage buffer that the kernel reads and writes.
    ReadWrite,
    /// A storage buffer that the kernel only reads.
    ReadOnly,
    /// A uniform buffer.
    Uniform,
}

/// How the vertices of a draw are assembled.
#[derive(Clone, Copy, Debug, PartialEq, Eq, Structural)]
pub enum Topology {
    /// Each vertex is a point.
    PointList,
    /// Each pair of vertices is a line.
    LineList,
    /// Each three vertices are a triangle.
    TriangleList,
}

/// One entry of a kernel's binding set.
#[derive(Clone, Copy, Debug, PartialEq, Eq, Structural)]
pub struct Binding {
    /// The binding slot.
    pub slot: u32,
    pub stage: Stage,
    pub access: Access,
    pub buffer: BufferId,
}

/// The binding set of `kernel`, slot by slot.
///
/// The update kernel has the particles, read and written, in slot 0 and the
/// parameters in slot 1. The render kernel has the camera matrix in slot 0
/// and the particles, read only, in slot 1.
pub open spec fn kernel_bindings(kernel: Kernel) -> Seq<Binding> {
    match kernel {
        Kernel::Update => seq![
            Binding {
                slot: 0,
                stage: Stage::Compute,
                access: Access::ReadWrite,
                buffer: BufferId::Particles,
            },
            Binding {
                slot: 1,
                stage: Stage::Compute,
                access: Access::Uniform,
                buffer: BufferId::Params,
            },
        ],
        Kernel::Render => seq![
            Binding {
                slot: 0,
                stage: Stage::Vertex,
                access: Access::Uniform,
                buffer: BufferId::Camera,
            },
            Binding {
                slot: 1,
                stage: Stage::Vertex,
                access: Access::ReadOnly,
                buffer: BufferId::Particles,
            },
        ],
    }
}

/// How the buffer `id` is created for a population of `particle_count`.
///
/// Every buffer can be written by the host. The particles are storage and
/// vertex data; the parameters and the camera matrix are uniforms.
pub open spec fn buffer_plan_spec(id: BufferId, particle_count: u32) -> BufferPlan {
    match id {
        BufferId::Particles => BufferPlan {
            id,
            size: (particle_count * PARTICLE_STRIDE) as u64,
            usage: BufferUsage { storage: true, vertex: true, uniform: false, copy_dst: true },
        },
        BufferId::Params => BufferPlan {
            id,
            size: PARAMS_SIZE,
            usage: BufferUsage { storage: false, vertex: false, uniform: true, copy_dst: true },
        },
        BufferId::Camera => BufferPlan {
            id,
            size: CAMERA_SIZE,
            usage: BufferUsage { storage: false, vertex: false, uniform: true, copy_dst: true },
        },
    }
}

/// Whether a buffer created for `usage` may be bound with `access`.
pub open spec fn usage_allows(usage: BufferUsage, access: Access) -> bool {
    match access {
        Access::ReadWrite => usage.storage,
        Access::ReadOnly => usage.storage,
        Access::Uniform => usage.uniform,
    }
}

/// How the render kernel's vertices are assembled: every particle is drawn
/// as one point.
pub fn render_topology() -> (topology: Topology)
    ensures
        topology == Topology::PointList,
{
    Topology::PointList
}

/// The binding set of `kernel`, slot by slot.
pub fn bindings(kernel: Kernel) -> (set: Vec<Binding>)
    ensures
        set@ == kernel_bindings(kernel),
{
    let mut set: Vec<Binding> = Vec::new();
    match kernel {
        Kernel::Update => {
            set.push(
                Binding {
                    slot: 0,
                    stage: Stage::Compute,
                    access: Access::ReadWrite,
                    buffer: BufferId::Particles,
                },
            );
            set.push(
                Binding {
                    slot: 1,
                    stage: Stage::Compute,
                    access: Access::Uniform,
                    buffer: BufferId::Params,
                },
            );
        },
        Kernel::Render => {
            set.push(
                Binding {
                    slot: 0,
                    stage: Stage::Vertex,
                    access: Access::Uniform,
                    buffer: BufferId::Camera,
                },
            );
            set.push(
                Binding {
                    slot: 1,
                    stage: Stage::Vertex,
                    access: Access::ReadOnly,
                    buffer: BufferId::Particles,
                },
            );
        },
    }
    assert(set@ =~= kernel_bindings(kernel));
    set
}

/// How the buffer `id` is created for a population of `particle_count`.
pub fn buffer_plan(id: BufferId, particle_count: u32) -> (plan: BufferPlan)
    ensures
        plan == buffer_plan_spec(id, particle_count),
{
    match id {
        BufferId::Particles => {
            let count: u64 = particle_count as u64;
            BufferPlan {
                id,
                size: count * PARTICLE_STRIDE,
                usage: BufferUsage { storage: true, vertex: true, uniform: false, copy_dst: true },
            }
        },
        BufferId::Params => BufferPlan {
            id,
            size: PARAMS_SIZE,
            usage: BufferUsage { storage: false, vertex: false, uniform: true, copy_dst: true },
        },
        BufferId::Camera => BufferPlan {
            id,
            size: CAMERA_SIZE,
            usage: BufferUsage { storage: false, vertex: false, uniform: true, copy_dst: true },
        },
    }
}

/// The binding sets and the buffers agree: slots are numbered from 0 in
/// order, every buffer is created for the access that a kernel has to it,
/// and the only buffer that a kernel writes is the particle buffer, in the
/// update kernel.
pub proof fn law_bindings_fit_buffers(kernel: Kernel, i: int, particle_count: u32)
    requires
        0 <= i < kernel_bindings(kernel).len(),
    ensures
        kernel_bindings(kernel).len() == 2,
        kernel_bindings(kernel)[i].slot == i,
        kernel_bindings(kernel)[i].stage == (match kernel {
            Kernel::Update => Stage::Compute,
            Kernel::Render => Stage::Vertex,
        }),
        usage_allows(
            buffer_plan_spec(kernel_bindings(kernel)[i].buffer, particle_count).usage,
            kernel_bindings(kernel)[i].access,
        ),
        kernel_bindings(kernel)[i].access == Access::ReadWrite ==> kernel == Kernel::Update
            && kernel_bindings(kernel)[i].buffer == BufferId::Particles,
{
}

} // verus!
