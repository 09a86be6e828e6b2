use blackhole_sim::layout::{
    bindings, buffer_plan, render_topology, Access, Binding, BufferId, BufferPlan, BufferUsage,
    Kernel, Stage, Topology, CAMERA_SIZE, PARAMS_SIZE, PARTICLE_STRIDE,
};
use blackhole_sim::particles::{particle_bytes, Particle};
use blackhole_sim::scalar::{Scalar, Vector3};
use blackhole_sim::simulation::Simulation;

#[test]
fn update_kernel_bindings() {
    assert_eq!(
        bindings(Kernel::Update),
        vec![
            Binding {
                slot: 0,
                stage: Stage::Compute,
                access: Access::ReadWrite,
                buffer: BufferId::Particles
            },
            Binding {
                slot: 1,
                stage: Stage::Compute,
                access: Access::Uniform,
                buffer: BufferId::Params
            },
        ]
    );
}

#[test]
fn render_kernel_bindings() {
    assert_eq!(
        bindings(Kernel::Render),
        vec![
            Binding {
                slot: 0,
                stage: Stage::Vertex,
                access: Access::Uniform,
                buffer: BufferId::Camera
            },
            Binding {
                slot: 1,
                stage: Stage::Vertex,
                access: Access::ReadOnly,
                buffer: BufferId::Particles
            },
        ]
    );
}

#[test]
fn buffer_plans() {
    assert_eq!(
        buffer_plan(BufferId::Particles, 131072),
        BufferPlan {
            id: BufferId::Particles,
            size: 3145728,
            usage: BufferUsage { storage: true, vertex: true, uniform: false, copy_dst: true },
        }
    );
    assert_eq!(
        buffer_plan(BufferId::Params, 131072),
        BufferPlan {
            id: BufferId::Params,
            size: 16,
            usage: BufferUsage { storage: false, vertex: false, uniform: true, copy_dst: true },
        }
    );
    assert_eq!(
        buffer_plan(BufferId::Camera, 131072),
        BufferPlan {
            id: BufferId::Camera,
            size: 64,
            usage: BufferUsage { storage: false, vertex: false, uniform: true, copy_dst: true },
        }
    );
}

#[test]
fn particle_buffer_grows_with_the_population() {
    assert_eq!(PARTICLE_STRIDE, 24);
    assert_eq!(buffer_plan(BufferId::Particles, 0).size, 0);
    assert_eq!(buffer_plan(BufferId::Particles, 4096).size, 98304);
    assert_eq!(buffer_plan(BufferId::Particles, u32::MAX).size, 103079215080);
}

#[test]
fn every_binding_is_allowed_by_its_buffer() {
    for kernel in [Kernel::Update, Kernel::Render] {
        for (i, binding) in bindings(kernel).iter().enumerate() {
            assert_eq!(binding.slot as usize, i);
            let usage = buffer_plan(binding.buffer, 131072).usage;
            match binding.access {
                Access::ReadWrite | Access::ReadOnly => assert!(usage.storage),
                Access::Uniform => assert!(usage.uniform),
            }
        }
    }
}

#[test]
fn planned_sizes_match_the_bytes_written() {
    let sim = Simulation::new();
    assert_eq!(sim.params_bytes().len() as u64, PARAMS_SIZE);
    let matrix = [Scalar::from_bits(0); 16];
    assert_eq!(sim.update_camera(&matrix).len() as u64, CAMERA_SIZE);
    let zero = Vector3 { x: Scalar::from_bits(0), y: Scalar::from_bits(0), z: Scalar::from_bits(0) };
    let particles = vec![Particle { position: zero, velocity: zero }; 10];
    assert_eq!(particle_bytes(&particles).len() as u64, buffer_plan(BufferId::Particles, 10).size);
}

#[test]
fn particles_are_drawn_as_points() {
    assert_eq!(render_topology(), Topology::PointList);
}
