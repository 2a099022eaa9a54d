use learn_wgpu::driver::{Command, FrameDriver, FrameStep, Key, Response, SetupError, WindowEvent};
use learn_wgpu::frame::{FramePhase, AcquireError};
use learn_wgpu::geometry::{DrawCall, GeometryBuffer, GeometryUpload};
use learn_wgpu::pipeline::{PipelineRegistry, PipelineVariant, VariantLayout};
use learn_wgpu::surface::SurfaceConfig;
use wgpu::TextureFormat;

type Color = [f64; 4];
type Driver = FrameDriver<&'static str, &'static str, &'static str, Color>;

const GREY: Color = [0.03, 0.03, 0.03, 1.0];
const INDICES: [u16; 10] = [0, 1, 4, 1, 2, 4, 2, 3, 4, 0];

fn textured() -> VariantLayout {
    VariantLayout { uses_resources: true, uses_geometry: true, vertex_count: 0 }
}

fn procedural() -> VariantLayout {
    VariantLayout { uses_resources: false, uses_geometry: false, vertex_count: 3 }
}

fn geometry() -> GeometryBuffer<&'static str> {
    let u = GeometryUpload::prepare(vec![0u8; 100], 20, &INDICES).unwrap();
    GeometryBuffer::new(&u, "vertices", "indices")
}

fn driver_with(layouts: Vec<VariantLayout>, resources: bool, with_geometry: bool) -> Result<Driver, SetupError> {
    let names = ["first", "second", "third"];
    let variants = layouts
        .into_iter()
        .enumerate()
        .map(|(i, layout)| PipelineVariant { pipeline: names[i], layout })
        .collect();
    FrameDriver::new(
        SurfaceConfig::new(TextureFormat::Bgra8UnormSrgb, 800, 600).unwrap(),
        PipelineRegistry::new(variants).unwrap(),
        if resources { Some("bind group") } else { None },
        if with_geometry { Some(geometry()) } else { None },
        GREY,
    )
}

fn driver() -> Driver {
    driver_with(vec![textured(), textured()], true, true).unwrap()
}

fn start_frame(d: &mut Driver) {
    assert_eq!(d.handle_event(WindowEvent::RedrawRequested).command, Command::Redraw);
    d.begin_frame();
    d.update();
    assert_eq!(d.phase(), FramePhase::Acquiring);
}

#[test]
fn setup_reports_missing_pieces() {
    assert_eq!(driver_with(vec![textured()], false, true).err(), Some(SetupError::MissingResources));
    assert_eq!(driver_with(vec![textured()], true, false).err(), Some(SetupError::MissingGeometry));
    assert_eq!(driver_with(vec![procedural(), textured()], false, false).err(), Some(SetupError::MissingResources));
    assert!(driver_with(vec![procedural()], false, false).is_ok());
}

#[test]
fn new_driver_is_idle() {
    let d = driver();
    assert_eq!(d.phase(), FramePhase::Idle);
    assert_eq!(d.clear_color(), GREY);
    assert_eq!(d.pipelines().active(), 0);
    assert_eq!(d.surface().width(), 800);
    assert_eq!(*d.resources(), Some("bind group"));
    assert_eq!(d.geometry().as_ref().unwrap().index_count(), 10);
}

#[test]
fn resize_applies_positive_sizes_only() {
    let mut d = driver();
    let r = d.handle_event(WindowEvent::Resized { width: 1280, height: 720 });
    assert_eq!(r, Response { consumed: false, command: Command::ApplySurface });
    assert_eq!((d.surface().width(), d.surface().height()), (1280, 720));
    let r = d.handle_event(WindowEvent::Resized { width: 0, height: 0 });
    assert_eq!(r, Response { consumed: false, command: Command::Nothing });
    assert_eq!((d.surface().width(), d.surface().height()), (1280, 720));
    assert_eq!(d.phase(), FramePhase::Idle);
}

#[test]
fn pointer_move_sets_clear_color() {
    let mut d = driver();
    let color = [0.25, 0.75, 0.5, 1.0];
    let r = d.handle_event(WindowEvent::PointerMoved { color });
    assert_eq!(r, Response { consumed: true, command: Command::Nothing });
    assert_eq!(d.clear_color(), color);
}

#[test]
fn space_cycles_pipelines() {
    let mut d = driver();
    let r = d.handle_event(WindowEvent::KeyPressed(Key::Space));
    assert_eq!(r, Response { consumed: true, command: Command::Nothing });
    assert_eq!(d.pipelines().active(), 1);
    d.handle_event(WindowEvent::KeyPressed(Key::Space));
    assert_eq!(d.pipelines().active(), 0);
    let r = d.handle_event(WindowEvent::KeyReleased(Key::Space));
    assert_eq!(r, Response { consumed: false, command: Command::Nothing });
    assert_eq!(d.pipelines().active(), 0);
    let r = d.handle_event(WindowEvent::KeyPressed(Key::Other));
    assert_eq!(r, Response { consumed: false, command: Command::Nothing });
}

#[test]
fn escape_and_close_shut_down() {
    let mut d = driver();
    let r = d.handle_event(WindowEvent::KeyPressed(Key::Escape));
    assert_eq!(r, Response { consumed: false, command: Command::Exit });
    assert_eq!(d.phase(), FramePhase::ShuttingDown);
    assert_eq!(d.handle_event(WindowEvent::RedrawRequested).command, Command::Nothing);

    let mut d = driver();
    let r = d.handle_event(WindowEvent::CloseRequested);
    assert_eq!(r, Response { consumed: false, command: Command::Exit });
    assert_eq!(d.phase(), FramePhase::ShuttingDown);
}

#[test]
fn acquired_image_walks_the_frame_cycle() {
    let mut d = driver();
    d.handle_event(WindowEvent::KeyPressed(Key::Space));
    start_frame(&mut d);
    match d.acquired(Ok(())) {
        FrameStep::Draw(plan) => {
            assert_eq!(plan.clear_color, GREY);
            assert_eq!(plan.pipeline, 1);
            assert!(plan.bind_resources);
            assert!(plan.bind_geometry);
            assert_eq!(plan.draw, DrawCall { indexed: true, start: 0, end: 10 });
        }
        _ => panic!("expected a frame to draw"),
    }
    assert_eq!(d.phase(), FramePhase::Recording);
    d.advance();
    assert_eq!(d.phase(), FramePhase::Submitted);
    d.advance();
    assert_eq!(d.phase(), FramePhase::Presented);
    d.advance();
    assert_eq!(d.phase(), FramePhase::Idle);
}

#[test]
fn procedural_variant_draws_without_geometry() {
    let mut d = driver_with(vec![textured(), procedural()], true, true).unwrap();
    d.handle_event(WindowEvent::KeyPressed(Key::Space));
    start_frame(&mut d);
    match d.acquired(Ok(())) {
        FrameStep::Draw(plan) => {
            assert_eq!(plan.pipeline, 1);
            assert!(!plan.bind_resources);
            assert!(!plan.bind_geometry);
            assert_eq!(plan.draw, DrawCall { indexed: false, start: 0, end: 3 });
        }
        _ => panic!("expected a frame to draw"),
    }
}

#[test]
fn lost_or_outdated_surface_reconfigures_with_same_size() {
    for e in [AcquireError::Lost, AcquireError::Outdated] {
        let mut d = driver();
        d.handle_event(WindowEvent::Resized { width: 640, height: 480 });
        start_frame(&mut d);
        match d.acquired(Err(e)) {
            FrameStep::Reconfigure { width, height } => assert_eq!((width, height), (640, 480)),
            _ => panic!("expected a reconfiguration"),
        }
        assert_eq!(d.phase(), FramePhase::Idle);
        assert_eq!((d.surface().width(), d.surface().height()), (640, 480));
    }
}

#[test]
fn timeout_skips_the_frame() {
    let mut d = driver();
    d.handle_event(WindowEvent::PointerMoved { color: [0.5, 0.5, 0.5, 1.0] });
    start_frame(&mut d);
    assert!(matches!(d.acquired(Err(AcquireError::Timeout)), FrameStep::Skip));
    assert_eq!(d.phase(), FramePhase::Idle);
    assert_eq!(d.clear_color(), [0.5, 0.5, 0.5, 1.0]);
    assert_eq!(d.pipelines().active(), 0);
    assert_eq!((d.surface().width(), d.surface().height()), (800, 600));
}

#[test]
fn unrecoverable_errors_shut_down() {
    for e in [AcquireError::OutOfMemory, AcquireError::Other] {
        let mut d = driver();
        start_frame(&mut d);
        assert!(matches!(d.acquired(Err(e)), FrameStep::Fatal));
        assert_eq!(d.phase(), FramePhase::ShuttingDown);
        assert_eq!(d.handle_event(WindowEvent::RedrawRequested).command, Command::Nothing);
        d.handle_event(WindowEvent::Resized { width: 10, height: 10 });
        assert_eq!(d.phase(), FramePhase::ShuttingDown);
    }
}
