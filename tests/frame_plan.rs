use gpu_life::double_buffer::DoubleBuffer;
use gpu_life::frame::{ClearColor, Command, FrameOrchestrator, SeedPhase, Uniforms};

#[test]
fn swap_twice_restores_mapping() {
    let mut b = DoubleBuffer::new();
    assert_eq!((b.read_image(), b.write_image()), (0, 1));
    b.swap();
    assert_eq!((b.read_image(), b.write_image()), (1, 0));
    assert_eq!(b.slot(0), 1);
    b.swap();
    assert_eq!((b.slot(0), b.slot(1)), (0, 1));
}

#[test]
fn seed_flag_only_on_first_frame() {
    let mut o = FrameOrchestrator::new(64, 64);
    assert_eq!(o.phase(), SeedPhase::Seeding);
    let first = o.begin_frame();
    assert!(first.uniforms.seed);
    for _ in 0..10 {
        let p = o.begin_frame();
        assert!(!p.uniforms.seed);
        assert_eq!(o.phase(), SeedPhase::Stepping);
    }
}

#[test]
fn simulation_never_reads_its_own_target() {
    let mut o = FrameOrchestrator::new(8, 8);
    for _ in 0..6 {
        let p = o.begin_frame();
        assert_ne!(p.simulation_source, p.simulation_target);
        assert_eq!(p.display_source, p.simulation_target);
    }
}

#[test]
fn roles_alternate_between_frames() {
    let mut o = FrameOrchestrator::new(8, 8);
    let p1 = o.begin_frame();
    assert_eq!((p1.simulation_source, p1.simulation_target), (1, 0));
    let p2 = o.begin_frame();
    assert_eq!((p2.simulation_source, p2.simulation_target), (0, 1));
    assert_eq!(p2.simulation_source, p1.simulation_target);
}

#[test]
fn commands_in_submission_order() {
    let mut o = FrameOrchestrator::new(8, 8);
    let p = o.begin_frame();
    assert_eq!(
        p.commands,
        vec![
            Command::ClearSimulationTarget(ClearColor::OpaqueBlack),
            Command::UploadUniforms,
            Command::DrawSimulation,
            Command::ClearDisplay(ClearColor::OpaqueRed),
            Command::DrawDisplay,
        ]
    );
}

#[test]
fn uniforms_carry_viewport_size() {
    for &side in &[64u16, 256u16] {
        let mut o = FrameOrchestrator::new(side, side);
        assert_eq!(o.size(), (side, side));
        let p = o.begin_frame();
        assert_eq!(p.uniforms, Uniforms { width: side, height: side, seed: true });
        let inverse = (1.0f32 / p.uniforms.width as f32, 1.0f32 / p.uniforms.height as f32);
        assert_eq!(inverse, (1.0 / side as f32, 1.0 / side as f32));
    }
    let mut o = FrameOrchestrator::new(640, 480);
    let p = o.begin_frame();
    assert_eq!((p.uniforms.width, p.uniforms.height), (640, 480));
}

#[test]
fn seed_phase_flags() {
    assert!(SeedPhase::Seeding.seed_flag());
    assert!(!SeedPhase::Stepping.seed_flag());
}
