use face_tracker::errors::CameraError;
use face_tracker::frame::{PixelFormat, RawFrame};
use face_tracker::geometry::{normalized_center, BoundingBox};
use face_tracker::head::{
    first_face, Capture, Dispatch, Head, LoopCommand, TickEvent, TickPlan, TickReport,
    TICK_PERIOD_MS,
};
use face_tracker::servo_controller::AxisCommand;
use face_tracker::transport::IoOutcome;

fn done() -> IoOutcome {
    IoOutcome::Done(Vec::new())
}

fn frame(generation: u64) -> RawFrame {
    RawFrame::new(320, 240, PixelFormat::Gray8, vec![0; 320 * 240], 0, generation).unwrap()
}

fn face() -> BoundingBox {
    BoundingBox { x: 100, y: 50, width: 40, height: 20 }
}

fn seen(generation: u64) -> Capture {
    Capture::Frame { frame: frame(generation), face: Some(face()) }
}

fn unseen(generation: u64) -> Capture {
    Capture::Frame { frame: frame(generation), face: None }
}

fn running_head() -> Head {
    let mut head = Head::new();
    assert_eq!(head.select_camera(0, &done()), Ok(()));
    assert_eq!(head.activate(true), LoopCommand::Spawn);
    head
}

fn skipped() -> TickReport {
    TickReport { event: TickEvent::Skipped, dispatch: None }
}

#[test]
fn tick_period_is_about_thirty_hertz() {
    assert_eq!(TICK_PERIOD_MS, 33);
}

#[test]
fn new_head_is_at_rest() {
    let head = Head::new();
    let state = head.state();
    assert!(!state.active);
    assert_eq!(state.selected_camera, None);
    assert_eq!(state.last_position, None);
    assert!(!head.is_running());
    assert_eq!(head.current_position(), None);
}

#[test]
fn activate_twice_starts_one_loop() {
    let mut head = Head::new();
    assert_eq!(head.activate(true), LoopCommand::Spawn);
    assert_eq!(head.activate(true), LoopCommand::Keep);
    assert!(head.state().active);
    assert!(head.is_running());
}

#[test]
fn deactivate_ends_the_loop_at_the_next_tick() {
    let mut head = running_head();
    assert_eq!(head.begin_tick(), TickPlan::Capture(1));
    assert_eq!(head.activate(false), LoopCommand::Keep);
    assert!(head.is_running());
    assert_eq!(head.begin_tick(), TickPlan::Exit);
    assert!(!head.is_running());
    assert_eq!(head.activate(true), LoopCommand::Spawn);
}

#[test]
fn reactivation_before_the_loop_left_keeps_the_loop() {
    let mut head = running_head();
    assert_eq!(head.activate(false), LoopCommand::Keep);
    assert_eq!(head.activate(true), LoopCommand::Keep);
    assert_eq!(head.begin_tick(), TickPlan::Capture(1));
    assert!(head.is_running());
}

#[test]
fn tick_without_a_loop_leaves() {
    let mut head = Head::new();
    assert_eq!(head.begin_tick(), TickPlan::Exit);
    assert_eq!(head.activate(false), LoopCommand::Keep);
    assert_eq!(head.begin_tick(), TickPlan::Exit);
}

#[test]
fn tick_without_a_camera_reads_from_no_handle() {
    let mut head = Head::new();
    assert_eq!(head.activate(true), LoopCommand::Spawn);
    assert_eq!(head.begin_tick(), TickPlan::Capture(0));
    assert!(!head.admits(&frame(0)));
    assert_eq!(head.finish_tick(seen(0)), skipped());
    assert_eq!(head.current_position(), None);
}

#[test]
fn position_is_known_exactly_while_a_face_is_seen() {
    let mut head = running_head();
    assert_eq!(head.current_position(), None);
    let expected = normalized_center(face(), 320, 240).unwrap();
    let report = head.finish_tick(seen(1));
    assert_eq!(report, TickReport { event: TickEvent::Found(expected), dispatch: None });
    assert_eq!(head.current_position(), Some(expected));
    let moved = BoundingBox { x: 0, y: 0, width: 320, height: 240 };
    let report = head.finish_tick(Capture::Frame { frame: frame(1), face: Some(moved) });
    let center = normalized_center(moved, 320, 240).unwrap();
    assert_eq!(report.event, TickEvent::Found(center));
    assert_eq!(head.current_position(), Some(center));
    assert_eq!(head.finish_tick(unseen(1)).event, TickEvent::FaceLost);
    assert_eq!(head.current_position(), None);
}

#[test]
fn face_lost_is_reported_once() {
    let mut head = running_head();
    assert_eq!(head.finish_tick(unseen(1)).event, TickEvent::NoFace);
    assert!(matches!(head.finish_tick(seen(1)).event, TickEvent::Found(_)));
    assert_eq!(head.finish_tick(unseen(1)), TickReport { event: TickEvent::FaceLost, dispatch: None });
    assert_eq!(head.current_position(), None);
    assert_eq!(head.finish_tick(unseen(1)), TickReport { event: TickEvent::NoFace, dispatch: None });
    assert_eq!(head.finish_tick(unseen(1)), TickReport { event: TickEvent::NoFace, dispatch: None });
    assert_eq!(head.current_position(), None);
    assert!(matches!(head.finish_tick(seen(1)).event, TickEvent::Found(_)));
    assert_eq!(head.finish_tick(unseen(1)).event, TickEvent::FaceLost);
}

#[test]
fn failed_read_skips_the_tick() {
    let mut head = running_head();
    assert!(matches!(head.finish_tick(seen(1)).event, TickEvent::Found(_)));
    let before = head.current_position();
    assert_eq!(head.finish_tick(Capture::Failed), skipped());
    assert_eq!(head.current_position(), before);
    assert!(head.is_running());
    assert_eq!(head.begin_tick(), TickPlan::Capture(1));
}

#[test]
fn frames_of_a_replaced_camera_are_discarded() {
    let mut head = running_head();
    assert_eq!(head.begin_tick(), TickPlan::Capture(1));
    let in_flight = frame(1);
    assert!(head.admits(&in_flight));
    assert_eq!(head.select_camera(1, &done()), Ok(()));
    assert!(!head.admits(&in_flight));
    assert_eq!(head.finish_tick(Capture::Frame { frame: in_flight, face: Some(face()) }), skipped());
    assert_eq!(head.current_position(), None);
    assert!(head.is_running());
    assert!(head.state().active);
    assert_eq!(head.state().selected_camera, Some(1));
    assert_eq!(head.begin_tick(), TickPlan::Capture(2));
    assert!(matches!(head.finish_tick(seen(2)).event, TickEvent::Found(_)));
    assert_eq!(head.finish_tick(unseen(1)), skipped());
    assert!(head.current_position().is_some());
}

#[test]
fn camera_that_does_not_open_leaves_the_loop_its_handle() {
    let mut head = running_head();
    assert_eq!(
        head.select_camera(4, &IoOutcome::Failed("in use".to_string())),
        Err(CameraError::OpenFailed("in use".to_string()))
    );
    assert_eq!(
        head.select_camera(4, &IoOutcome::TimedOut),
        Err(CameraError::OpenFailed("timed out".to_string()))
    );
    assert_eq!(head.state().selected_camera, Some(0));
    assert_eq!(head.begin_tick(), TickPlan::Capture(1));
    assert!(matches!(head.finish_tick(seen(1)).event, TickEvent::Found(_)));
}

#[test]
fn starting_a_loop_forgets_the_position() {
    let mut head = running_head();
    assert!(matches!(head.finish_tick(seen(1)).event, TickEvent::Found(_)));
    assert_eq!(head.activate(false), LoopCommand::Keep);
    assert_eq!(head.begin_tick(), TickPlan::Exit);
    assert!(head.current_position().is_some());
    assert_eq!(head.activate(true), LoopCommand::Spawn);
    assert_eq!(head.current_position(), None);
    assert_eq!(head.finish_tick(unseen(1)).event, TickEvent::NoFace);
}

#[test]
fn selected_device_follows_the_face() {
    let mut head = running_head();
    head.select_device(Some("/dev/ttyUSB0".to_string()));
    let report = head.finish_tick(seen(1));
    assert_eq!(
        report.dispatch,
        Some(Dispatch {
            device: "/dev/ttyUSB0".to_string(),
            command: AxisCommand { x: Some(67), y: Some(45) },
        })
    );
    assert_eq!(head.finish_tick(unseen(1)).dispatch, None);
    assert_eq!(head.finish_tick(unseen(1)).dispatch, None);
    head.select_device(None);
    assert_eq!(head.finish_tick(seen(1)).dispatch, None);
}

#[test]
fn manual_move_goes_to_the_selected_device() {
    let mut head = Head::new();
    assert_eq!(head.set_servo_position(Some(10), None), None);
    head.select_device(Some("dev1".to_string()));
    assert_eq!(
        head.set_servo_position(Some(10), None),
        Some(Dispatch { device: "dev1".to_string(), command: AxisCommand { x: Some(10), y: None } })
    );
    assert_eq!(
        head.set_servo_position(Some(200), Some(181)),
        Some(Dispatch {
            device: "dev1".to_string(),
            command: AxisCommand { x: Some(180), y: Some(180) }
        })
    );
    assert_eq!(head.selected_device(), Some(&"dev1".to_string()));
    assert_eq!(head.camera().generation(), 0);
}

#[test]
fn first_face_is_the_face_of_interest() {
    let a = BoundingBox { x: 1, y: 2, width: 3, height: 4 };
    let b = BoundingBox { x: 5, y: 6, width: 7, height: 8 };
    assert_eq!(first_face(&vec![a, b]), Some(a));
    assert_eq!(first_face(&vec![b]), Some(b));
    assert_eq!(first_face(&Vec::new()), None);
}
