use face_tracker::camera_controller::{prefer_listing, CameraChoice, CameraController};
use face_tracker::errors::CameraError;
use face_tracker::transport::IoOutcome;
use nokhwa::utils::{CameraIndex, CameraInfo};

fn done() -> IoOutcome {
    IoOutcome::Done(Vec::new())
}

fn camera(name: &str, index: u32) -> CameraInfo {
    CameraInfo::new(name, "test camera", "", CameraIndex::Index(index))
}

#[test]
fn new_source_has_no_camera() {
    let source = CameraController::new();
    assert_eq!(source.selected_camera_index(), None);
    assert_eq!(source.generation(), 0);
    assert!(!source.admits(0));
    assert!(!source.admits(1));
}

#[test]
fn enumeration_does_not_fail() {
    let cameras = CameraController::get_available_cameras();
    let again = CameraController::get_available_cameras();
    assert_eq!(cameras.len(), again.len());
}

#[test]
fn native_listing_is_preferred() {
    let native = vec![camera("built-in", 0)];
    let generic = vec![camera("usb", 1), camera("usb2", 2)];
    assert_eq!(prefer_listing(Some(native.clone()), Some(generic.clone())), native);
    assert_eq!(prefer_listing(Some(native.clone()), None), native);
}

#[test]
fn generic_listing_is_the_fallback() {
    let generic = vec![camera("usb", 1), camera("usb2", 2)];
    assert_eq!(prefer_listing(None, Some(generic.clone())), generic);
}

#[test]
fn empty_listing_is_an_answer() {
    let generic = vec![camera("usb", 1)];
    assert_eq!(prefer_listing(Some(Vec::new()), Some(generic)), Vec::new());
    assert_eq!(prefer_listing(None, Some(Vec::new())), Vec::new());
    assert_eq!(prefer_listing(None, None), Vec::new());
}

#[test]
fn requested_camera_is_taken_as_it_is() {
    assert_eq!(CameraController::resolve(Some(3), Vec::new()), Ok(CameraChoice::Requested(3)));
    assert_eq!(
        CameraController::resolve(Some(0), vec![camera("usb", 7)]),
        Ok(CameraChoice::Requested(0))
    );
    assert_eq!(CameraController::plan_open(Some(2)), Ok(CameraChoice::Requested(2)));
}

#[test]
fn unspecified_camera_is_the_first_listed() {
    assert_eq!(
        CameraController::resolve(None, vec![camera("usb", 7)]),
        Ok(CameraChoice::Listed(camera("usb", 7)))
    );
    assert_eq!(
        CameraController::resolve(None, vec![camera("a", 2), camera("b", 1), camera("c", 0)]),
        Ok(CameraChoice::Listed(camera("a", 2)))
    );
    assert_eq!(
        CameraController::resolve(None, Vec::new()),
        Err(CameraError::OpenFailed("no camera available".to_string()))
    );
}

#[test]
fn unspecified_camera_is_probed_for() {
    let found = CameraController::get_available_cameras();
    assert_eq!(CameraController::plan_open(None), CameraController::resolve(None, found));
}

#[test]
fn installing_a_camera_advances_the_generation() {
    let mut source = CameraController::new();
    assert_eq!(source.install(2, &done()), Ok(1));
    assert_eq!(source.selected_camera_index(), Some(2));
    assert_eq!(source.generation(), 1);
    assert!(source.admits(1));
    assert_eq!(source.install(0, &done()), Ok(2));
    assert_eq!(source.selected_camera_index(), Some(0));
    assert!(source.admits(2));
    assert!(!source.admits(1));
    assert!(!source.admits(0));
    assert!(!source.admits(3));
}

#[test]
fn camera_that_does_not_open_changes_nothing() {
    let mut source = CameraController::new();
    assert_eq!(
        source.install(1, &IoOutcome::Failed("busy".to_string())),
        Err(CameraError::OpenFailed("busy".to_string()))
    );
    assert_eq!(source.selected_camera_index(), None);
    assert_eq!(source.generation(), 0);
    assert_eq!(source.install(1, &done()), Ok(1));
    assert_eq!(
        source.install(5, &IoOutcome::TimedOut),
        Err(CameraError::OpenFailed("timed out".to_string()))
    );
    assert_eq!(source.selected_camera_index(), Some(1));
    assert_eq!(source.generation(), 1);
    assert!(source.admits(1));
}
