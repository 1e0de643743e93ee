use face_tracker::errors::DeviceError;
use face_tracker::servo_controller::{
    angle_or_neutral, AckReport, AxisCommand, SerialExchange, ServoController, ACK_CAPACITY,
    BAUD_RATE, MAX_ANGLE, NEUTRAL_ANGLE, PORT_TIMEOUT_MS, SETTLE_DELAY_MS,
};
use face_tracker::transport::IoOutcome;

fn done() -> IoOutcome {
    IoOutcome::Done(Vec::new())
}

#[test]
fn unset_x_defaults_to_neutral() {
    let command = AxisCommand { x: None, y: Some(120) };
    assert_eq!(command.encode(), b"90,120\n".to_vec());
}

#[test]
fn both_axes_unset_is_neutral_twice() {
    let command = AxisCommand { x: None, y: None };
    assert_eq!(command.encode(), b"90,90\n".to_vec());
}

#[test]
fn angles_are_written_without_leading_zeros() {
    assert_eq!(AxisCommand { x: Some(0), y: Some(7) }.encode(), b"0,7\n".to_vec());
    assert_eq!(AxisCommand { x: Some(10), y: Some(99) }.encode(), b"10,99\n".to_vec());
    assert_eq!(AxisCommand { x: Some(100), y: Some(180) }.encode(), b"100,180\n".to_vec());
}

#[test]
fn angles_above_the_range_are_clamped() {
    assert_eq!(AxisCommand { x: Some(181), y: Some(255) }.encode(), b"180,180\n".to_vec());
    assert_eq!(angle_or_neutral(Some(200)), MAX_ANGLE);
    assert_eq!(angle_or_neutral(Some(180)), 180);
    assert_eq!(angle_or_neutral(None), NEUTRAL_ANGLE);
}

#[test]
fn every_frame_decodes_to_its_angles() {
    for x in 0..=180u8 {
        for y in [0u8, 9, 10, 99, 100, 180] {
            let bytes = AxisCommand { x: Some(x), y: Some(y) }.encode();
            let text = String::from_utf8(bytes).unwrap();
            assert_eq!(text, format!("{},{}\n", x, y));
        }
    }
}

#[test]
fn serial_line_parameters() {
    assert_eq!(BAUD_RATE, 9600);
    assert_eq!(PORT_TIMEOUT_MS, 1000);
    assert_eq!(SETTLE_DELAY_MS, 100);
    assert_eq!(ACK_CAPACITY, 1000);
    assert_eq!(NEUTRAL_ANGLE, 90);
    assert_eq!(MAX_ANGLE, 180);
}

#[test]
fn controller_exists_only_for_an_open_port() {
    let open = ServoController::new("/dev/ttyUSB0", done()).unwrap();
    assert_eq!(open.port_name(), "/dev/ttyUSB0");
    assert_eq!(
        ServoController::new("/dev/ttyUSB0", IoOutcome::Failed("no such device".to_string())),
        Err(DeviceError::Unavailable("/dev/ttyUSB0".to_string(), "no such device".to_string()))
    );
    assert_eq!(
        ServoController::new("/dev/ttyUSB0", IoOutcome::TimedOut),
        Err(DeviceError::Unavailable("/dev/ttyUSB0".to_string(), "timed out".to_string()))
    );
}

#[test]
fn set_position_begins_with_the_frame() {
    let controller = ServoController::new("port", done()).unwrap();
    assert_eq!(
        controller.set_position(None, Some(120)),
        SerialExchange::Write(b"90,120\n".to_vec())
    );
    assert_eq!(
        controller.set_position(Some(45), None),
        SerialExchange::Write(b"45,90\n".to_vec())
    );
}

#[test]
fn delivery_with_an_answer() {
    let controller = ServoController::new("port", done()).unwrap();
    let step = controller.set_position(Some(1), Some(2));
    assert!(!step.is_finished());
    let step = step.advance(done());
    assert_eq!(step, SerialExchange::Flush);
    let step = step.advance(done());
    assert_eq!(step, SerialExchange::ReadAck);
    let step = step.advance(IoOutcome::Done(b"OK\r\n".to_vec()));
    assert!(step.is_finished());
    assert_eq!(step, SerialExchange::Done(Ok(AckReport::Received(b"OK\r\n".to_vec()))));
}

#[test]
fn silence_of_the_device_is_no_error() {
    let step = SerialExchange::ReadAck.advance(IoOutcome::TimedOut);
    assert_eq!(step, SerialExchange::Done(Ok(AckReport::Silent)));
}

#[test]
fn failed_read_of_the_answer_is_an_error() {
    let step = SerialExchange::ReadAck.advance(IoOutcome::Failed("broken pipe".to_string()));
    assert_eq!(step, SerialExchange::Done(Err(DeviceError::Io("broken pipe".to_string()))));
}

#[test]
fn failed_write_ends_the_delivery() {
    let step = SerialExchange::Write(b"1,2\n".to_vec())
        .advance(IoOutcome::Failed("device removed".to_string()));
    assert_eq!(step, SerialExchange::Done(Err(DeviceError::Io("device removed".to_string()))));
    let step = SerialExchange::Write(b"1,2\n".to_vec()).advance(IoOutcome::TimedOut);
    assert_eq!(step, SerialExchange::Done(Err(DeviceError::Io("timed out".to_string()))));
}

#[test]
fn failed_flush_ends_the_delivery() {
    let step = SerialExchange::Flush.advance(IoOutcome::Failed("device removed".to_string()));
    assert_eq!(step, SerialExchange::Done(Err(DeviceError::Io("device removed".to_string()))));
    let step = SerialExchange::Flush.advance(IoOutcome::TimedOut);
    assert_eq!(step, SerialExchange::Done(Err(DeviceError::Io("timed out".to_string()))));
}

#[test]
fn finished_delivery_stays_finished() {
    let step = SerialExchange::Done(Ok(AckReport::Silent)).advance(IoOutcome::TimedOut);
    assert_eq!(step, SerialExchange::Done(Ok(AckReport::Silent)));
    let step = SerialExchange::Done(Err(DeviceError::Io("x".to_string()))).advance(done());
    assert_eq!(step, SerialExchange::Done(Err(DeviceError::Io("x".to_string()))));
}

#[test]
fn new_command_is_limited_to_the_axis_range() {
    assert_eq!(AxisCommand::new(Some(200), None), AxisCommand { x: Some(180), y: None });
    assert_eq!(AxisCommand::new(Some(180), Some(181)), AxisCommand { x: Some(180), y: Some(180) });
    assert_eq!(AxisCommand::new(Some(0), Some(90)), AxisCommand { x: Some(0), y: Some(90) });
    assert_eq!(AxisCommand::new(None, None), AxisCommand { x: None, y: None });
    assert_eq!(AxisCommand::new(Some(255), None).encode(), AxisCommand { x: Some(255), y: None }.encode());
}

#[test]
fn set_position_limits_the_angles() {
    let controller = ServoController::new("port", done()).unwrap();
    assert_eq!(
        controller.set_position(Some(250), Some(181)),
        SerialExchange::Write(b"180,180\n".to_vec())
    );
}
