//! Serial actuator backend: the angle command, its ASCII wire format, and the exchange
//! that carries one command over the port.

use vstd::prelude::*;
use crate::errors::{DeviceError, DeviceErrorView};
use crate::transport::{IoOutcome, IoOutcomeView};

verus! {

/// Speed of the serial line, in bits per second.
pub const BAUD_RATE: u32 = 9600;

/// Time limit of one operation on the port, in milliseconds.
pub const PORT_TIMEOUT_MS: u64 = 1000;

/// Pause between the flush of a command and the read of its acknowledgment, in
/// milliseconds: the time the device is given to act on the command.
pub const SETTLE_DELAY_MS: u64 = 100;

/// Largest number of bytes read as an acknowledgment.
pub const ACK_CAPACITY: usize = 1000;

/// Angle that an axis takes when a command leaves it unset.
pub const NEUTRAL_ANGLE: u8 = 90;

/// Largest angle that an axis accepts.
pub const MAX_ANGLE: u8 = 180;

/// A move of the two axes. `None` leaves the choice of an axis to the backend.
#[derive(Debug, Clone, Copy, PartialEq, Eq)]
pub struct AxisCommand {
    pub x: Option<u8>,
    pub y: Option<u8>,
}

/// A requested angle limited to `MAX_ANGLE`.
pub open spec fn clamp_angle(axis: Option<u8>) -> Option<u8> {
    match axis {
        Some(angle) => Some(if angle > MAX_ANGLE { MAX_ANGLE } else { angle }),
        None => None,
    }
}

/// The angle sent for one axis: the requested angle limited to `MAX_ANGLE`, or
/// `NEUTRAL_ANGLE` where none is requested.
pub open spec fn effective_angle(axis: Option<u8>) -> u8 {
    match clamp_angle(axis) {
        Some(angle) => angle,
        None => NEUTRAL_ANGLE,
    }
}

/// Decimal digits of `n` in ASCII, most significant first, without leading zeros.
pub open spec fn decimal_digits(n: nat) -> Seq<u8>
    decreases n,
{
    if n < 10 {
        seq![(48 + n) as u8]
    } else {
        decimal_digits(n / 10).push((48 + n % 10) as u8)
    }
}

/// The serial frame for the angles `x` and `y`: `"<x>,<y>\n"`.
pub open spec fn serial_frame(x: u8, y: u8) -> Seq<u8> {
    decimal_digits(x as nat) + seq![44u8] + decimal_digits(y as nat) + seq![10u8]
}

/// Appends the decimal digits of `n` to `out`.
fn push_decimal(out: &mut Vec<u8>, n: u8)
    ensures
        final(out)@ == old(out)@ + decimal_digits(n as nat),
{
    if n >= 100 {
        out.push(48 + n / 100);
        out.push(48 + (n / 10) % 10);
        out.push(48 + n % 10);
        proof {
            reveal_with_fuel(decimal_digits, 3);
            assert(out@ =~= old(out)@ + decimal_digits(n as nat));
        }
    } else if n >= 10 {
        out.push(48 + n / 10);
        out.push(48 + n % 10);
        proof {
            reveal_with_fuel(decimal_digits, 2);
            assert(out@ =~= old(out)@ + decimal_digits(n as nat));
        }
    } else {
        out.push(48 + n);
        proof {
            assert(out@ =~= old(out)@ + decimal_digits(n as nat));
        }
    }
}

impl AxisCommand {
    /// The command for the requested angles, each limited to `MAX_ANGLE`.
    pub open spec fn clamped(x: Option<u8>, y: Option<u8>) -> AxisCommand {
        AxisCommand { x: clamp_angle(x), y: clamp_angle(y) }
    }

    /// No angle of the command is above `MAX_ANGLE`.
    pub open spec fn in_range(self) -> bool {
        &&& self.x matches Some(angle) ==> angle <= MAX_ANGLE
        &&& self.y matches Some(angle) ==> angle <= MAX_ANGLE
    }

    /// The bytes that this command puts on the serial line.
    pub open spec fn wire(self) -> Seq<u8> {
        serial_frame(effective_angle(self.x), effective_angle(self.y))
    }

    /// The command for the requested angles, each limited to `MAX_ANGLE`.
    pub fn new(x: Option<u8>, y: Option<u8>) -> (command: AxisCommand)
        ensures
            command == AxisCommand::clamped(x, y),
            command.in_range(),
    {
        AxisCommand { x: clamp(x), y: clamp(y) }
    }

    /// Serializes the command as `"<x>,<y>\n"`.
    pub fn encode(&self) -> (bytes: Vec<u8>)
        ensures
            bytes@ == self.wire(),
    {
        let x: u8 = angle_or_neutral(self.x);
        let y: u8 = angle_or_neutral(self.y);
        let mut bytes: Vec<u8> = Vec::new();
        push_decimal(&mut bytes, x);
        bytes.push(44u8);
        push_decimal(&mut bytes, y);
        bytes.push(10u8);
        proof {
            assert(bytes@ =~= serial_frame(x, y));
        }
        bytes
    }
}

/// A requested angle limited to `MAX_ANGLE`.
fn clamp(axis: Option<u8>) -> (clamped: Option<u8>)
    ensures
        clamped == clamp_angle(axis),
{
    match axis {
        Some(requested) => Some(if requested > MAX_ANGLE { MAX_ANGLE } else { requested }),
        None => None,
    }
}

/// The angle sent for one axis of a command.
pub fn angle_or_neutral(axis: Option<u8>) -> (angle: u8)
    ensures
        angle == effective_angle(axis),
        angle <= MAX_ANGLE,
{
    match clamp(axis) {
        Some(angle) => angle,
        None => NEUTRAL_ANGLE,
    }
}

/// What the device answered to a command. The answer is kept for diagnostics only.
#[derive(Debug, Clone, PartialEq, Eq)]
pub enum AckReport {
    /// The device answered with these bytes.
    Received(Vec<u8>),
    /// The device did not answer in time.
    Silent,
}

/// Mathematical model of an [`AckReport`].
pub enum AckReportView {
    Received(Seq<u8>),
    Silent,
}

impl View for AckReport {
    type V = AckReportView;

    open spec fn view(&self) -> AckReportView {
        match self {
            AckReport::Received(bytes) => AckReportView::Received(bytes@),
            AckReport::Silent => AckReportView::Silent,
        }
    }
}

/// One step of the delivery of a command over the serial port. Each variant but the last
/// names the input/output that the driver performs next; the driver then reports the
/// outcome to [`SerialExchange::advance`].
#[derive(Debug, PartialEq, Eq)]
pub enum SerialExchange {
    /// Write all of these bytes to the port.
    Write(Vec<u8>),
    /// Flush the port.
    Flush,
    /// Wait `SETTLE_DELAY_MS`, then read at most `ACK_CAPACITY` bytes.
    ReadAck,
    /// The delivery is over, with this result.
    Done(Result<AckReport, DeviceError>),
}

/// Mathematical model of a [`SerialExchange`].
pub enum SerialExchangeView {
    Write(Seq<u8>),
    Flush,
    ReadAck,
    Done(Result<AckReportView, DeviceErrorView>),
}

impl View for SerialExchange {
    type V = SerialExchangeView;

    open spec fn view(&self) -> SerialExchangeView {
        match self {
            SerialExchange::Write(bytes) => SerialExchangeView::Write(bytes@),
            SerialExchange::Flush => SerialExchangeView::Flush,
            SerialExchange::ReadAck => SerialExchangeView::ReadAck,
            SerialExchange::Done(Ok(report)) => SerialExchangeView::Done(Ok(report@)),
            SerialExchange::Done(Err(e)) => SerialExchangeView::Done(Err(e@)),
        }
    }
}

/// The reason recorded for an operation that ran out of time.
pub open spec fn timed_out_reason() -> Seq<char> {
    "timed out"@
}

/// The error that a failed write or flush ends the delivery with. There is none for an
/// operation that completed.
pub open spec fn write_failure(outcome: IoOutcomeView) -> Option<DeviceErrorView> {
    match outcome {
        IoOutcomeView::Done(_) => None,
        IoOutcomeView::TimedOut => Some(DeviceErrorView::Io(timed_out_reason())),
        IoOutcomeView::Failed(reason) => Some(DeviceErrorView::Io(reason)),
    }
}

impl SerialExchangeView {
    /// The step that follows when the pending input/output ended with `outcome`.
    ///
    /// A write or a flush that did not complete ends the delivery with `Io`. The read of
    /// the acknowledgment serves diagnostics: silence of the device is a success, and only
    /// a failure of the read itself is an error. A finished delivery stays finished.
    pub open spec fn advance(self, outcome: IoOutcomeView) -> SerialExchangeView {
        match self {
            SerialExchangeView::Write(_) => match write_failure(outcome) {
                None => SerialExchangeView::Flush,
                Some(e) => SerialExchangeView::Done(Err(e)),
            },
            SerialExchangeView::Flush => match write_failure(outcome) {
                None => SerialExchangeView::ReadAck,
                Some(e) => SerialExchangeView::Done(Err(e)),
            },
            SerialExchangeView::ReadAck => match outcome {
                IoOutcomeView::Done(bytes) => SerialExchangeView::Done(
                    Ok(AckReportView::Received(bytes)),
                ),
                IoOutcomeView::TimedOut => SerialExchangeView::Done(Ok(AckReportView::Silent)),
                IoOutcomeView::Failed(reason) => SerialExchangeView::Done(
                    Err(DeviceErrorView::Io(reason)),
                ),
            },
            SerialExchangeView::Done(result) => SerialExchangeView::Done(result),
        }
    }

    /// Whether the delivery is over.
    pub open spec fn finished(self) -> bool {
        self is Done
    }
}

/// The error for a write or a flush that did not complete.
fn io_failure(outcome: IoOutcome) -> (failure: Option<DeviceError>)
    ensures
        match failure {
            Some(e) => write_failure(outcome@) == Some(e@),
            None => write_failure(outcome@) is None,
        },
{
    match outcome {
        IoOutcome::Done(_) => None,
        IoOutcome::TimedOut => Some(DeviceError::Io("timed out".to_owned())),
        IoOutcome::Failed(reason) => Some(DeviceError::Io(reason)),
    }
}

impl SerialExchange {
    /// Takes the outcome of the pending input/output and decides what follows.
    pub fn advance(self, outcome: IoOutcome) -> (next: SerialExchange)
        ensures
            next@ == self@.advance(outcome@),
    {
        match self {
            SerialExchange::Write(_) => match io_failure(outcome) {
                None => SerialExchange::Flush,
                Some(e) => SerialExchange::Done(Err(e)),
            },
            SerialExchange::Flush => match io_failure(outcome) {
                None => SerialExchange::ReadAck,
                Some(e) => SerialExchange::Done(Err(e)),
            },
            SerialExchange::ReadAck => match outcome {
                IoOutcome::Done(bytes) => SerialExchange::Done(Ok(AckReport::Received(bytes))),
                IoOutcome::TimedOut => SerialExchange::Done(Ok(AckReport::Silent)),
                IoOutcome::Failed(reason) => SerialExchange::Done(Err(DeviceError::Io(reason))),
            },
            SerialExchange::Done(result) => SerialExchange::Done(result),
        }
    }

    /// Whether the delivery is over.
    pub fn is_finished(&self) -> (finished: bool)
        ensures
            finished == self@.finished(),
    {
        match self {
            SerialExchange::Done(_) => true,
            _ => false,
        }
    }
}

/// The serial backend of one port.
#[derive(Debug, Clone, PartialEq, Eq)]
pub struct ServoController {
    port_name: String,
}

impl View for ServoController {
    type V = Seq<char>;

    /// The name of the port.
    closed spec fn view(&self) -> Seq<char> {
        self.port_name@
    }
}

/// The error for a port that could not be opened. There is none for a port that is open.
pub open spec fn open_failure(name: Seq<char>, opened: IoOutcomeView) -> Option<DeviceErrorView> {
    match opened {
        IoOutcomeView::Done(_) => None,
        IoOutcomeView::TimedOut => Some(DeviceErrorView::Unavailable(name, timed_out_reason())),
        IoOutcomeView::Failed(reason) => Some(DeviceErrorView::Unavailable(name, reason)),
    }
}

impl ServoController {
    /// The backend of the port `port_name`, where `opened` tells how opening the port at
    /// `BAUD_RATE` with a time limit of `PORT_TIMEOUT_MS` went. There is a backend exactly
    /// when the port is open.
    pub fn new(port_name: &str, opened: IoOutcome) -> (backend: Result<ServoController, DeviceError>)
        ensures
            match backend {
                Ok(controller) => opened@ is Done && controller@ == port_name@,
                Err(e) => open_failure(port_name@, opened@) == Some(e@),
            },
    {
        match opened {
            IoOutcome::Done(_) => Ok(ServoController { port_name: port_name.to_owned() }),
            IoOutcome::TimedOut => Err(
                DeviceError::Unavailable(port_name.to_owned(), "timed out".to_owned()),
            ),
            IoOutcome::Failed(reason) => Err(DeviceError::Unavailable(port_name.to_owned(), reason)),
        }
    }

    /// Name of the port.
    pub fn port_name(&self) -> (name: &String)
        ensures
            name@ == self@,
    {
        &self.port_name
    }

    /// Begins the delivery of a move to the angles `x` and `y`: the first step writes the
    /// frame of the command, in which an angle above `MAX_ANGLE` stands at `MAX_ANGLE` and
    /// an unset axis at `NEUTRAL_ANGLE`.
    pub fn set_position(&self, x: Option<u8>, y: Option<u8>) -> (exchange: SerialExchange)
        ensures
            exchange@ == SerialExchangeView::Write(AxisCommand::clamped(x, y).wire()),
    {
        let command = AxisCommand::new(x, y);
        SerialExchange::Write(command.encode())
    }
}

/// A delivery is over after three outcomes at most. It succeeds exactly when the write
/// and the flush completed and the read of the acknowledgment did not fail; whether the
/// device answered at all plays no part.
pub proof fn lemma_delivery_outcome(
    frame: Seq<u8>,
    written: IoOutcomeView,
    flushed: IoOutcomeView,
    answered: IoOutcomeView,
)
    ensures
        SerialExchangeView::Write(frame).advance(written).advance(flushed).advance(
            answered,
        ).finished(),
        SerialExchangeView::Write(frame).advance(written).advance(flushed).advance(answered)
            matches SerialExchangeView::Done(result) && (result is Ok <==> (written is Done
            && flushed is Done && !(answered is Failed))),
        answered is TimedOut && written is Done && flushed is Done ==> SerialExchangeView::Write(
            frame,
        ).advance(written).advance(flushed).advance(answered) == SerialExchangeView::Done(
            Ok(AckReportView::Silent),
        ),
{
}

/// Limiting the angles of a command does not change what goes on the line: the frame of
/// a command is that of its angles limited to `MAX_ANGLE`, and every angle in it is
/// between 0 and `MAX_ANGLE`.
pub proof fn lemma_wire_is_clamped(x: Option<u8>, y: Option<u8>)
    ensures
        (AxisCommand { x, y }).wire() == AxisCommand::clamped(x, y).wire(),
        AxisCommand::clamped(x, y).in_range(),
        effective_angle(x) <= MAX_ANGLE,
        effective_angle(y) <= MAX_ANGLE,
{
}

/// The frame of a command is its two angles in decimal, a comma between them and a line
/// feed at the end: between four and eight bytes, of which the last is the line feed.
pub proof fn lemma_frame_shape(x: u8, y: u8)
    ensures
        4 <= serial_frame(x, y).len() <= 8,
        serial_frame(x, y).last() == 10u8,
        1 <= decimal_digits(x as nat).len() <= 3,
        serial_frame(x, y)[decimal_digits(x as nat).len() as int] == 44u8,
{
    reveal_with_fuel(decimal_digits, 3);
}

/// The digits of an angle, written out: one, two or three of them, none of which is a
/// comma or a line feed.
pub proof fn lemma_digits_of_angle(n: u8)
    ensures
        n < 10 ==> decimal_digits(n as nat) == seq![(48 + n) as u8],
        10 <= n < 100 ==> decimal_digits(n as nat) == seq![(48 + n / 10) as u8, (48 + n % 10) as u8],
        100 <= n ==> decimal_digits(n as nat) == seq![
            (48 + n / 100) as u8,
            (48 + n / 10 % 10) as u8,
            (48 + n % 10) as u8,
        ],
        forall|i: int|
            0 <= i < decimal_digits(n as nat).len() ==> 48 <= #[trigger] decimal_digits(n as nat)[i]
                <= 57,
{
    reveal_with_fuel(decimal_digits, 3);
    if n < 10 {
        assert(decimal_digits(n as nat) =~= seq![(48 + n) as u8]);
    } else if n < 100 {
        assert(decimal_digits(n as nat) =~= seq![(48 + n / 10) as u8, (48 + n % 10) as u8]);
    } else {
        assert(decimal_digits(n as nat) =~= seq![
            (48 + n / 100) as u8,
            (48 + n / 10 % 10) as u8,
            (48 + n % 10) as u8,
        ]);
    }
}

/// The digits of an angle determine the angle.
pub proof fn lemma_digits_tell_angle(a: u8, b: u8)
    requires
        decimal_digits(a as nat) == decimal_digits(b as nat),
    ensures
        a == b,
{
    lemma_digits_of_angle(a);
    lemma_digits_of_angle(b);
    let d = decimal_digits(a as nat);
    let e = decimal_digits(b as nat);
    assert(d.len() == e.len());
    assert(d[0] == e[0]);
    if d.len() >= 2 {
        assert(d[1] == e[1]);
    }
    if d.len() >= 3 {
        assert(d[2] == e[2]);
    }
}

/// The frame of a command determines its two angles: the device that reads a frame
/// cannot take it for the frame of other angles.
pub proof fn lemma_frame_tells_angles(x: u8, y: u8, other_x: u8, other_y: u8)
    requires
        serial_frame(x, y) == serial_frame(other_x, other_y),
    ensures
        x == other_x,
        y == other_y,
{
    let dx = decimal_digits(x as nat);
    let dy = decimal_digits(y as nat);
    let ex = decimal_digits(other_x as nat);
    let ey = decimal_digits(other_y as nat);
    let f = serial_frame(x, y);
    let g = serial_frame(other_x, other_y);
    lemma_digits_of_angle(x);
    lemma_digits_of_angle(y);
    lemma_digits_of_angle(other_x);
    lemma_digits_of_angle(other_y);
    assert(f[dx.len() as int] == 44u8);
    assert(g[ex.len() as int] == 44u8);
    if dx.len() < ex.len() {
        assert(g[dx.len() as int] == ex[dx.len() as int]);
    }
    if ex.len() < dx.len() {
        assert(f[ex.len() as int] == dx[ex.len() as int]);
    }
    assert(dx =~= ex) by {
        assert forall|i: int| 0 <= i < dx.len() implies dx[i] == ex[i] by {
            assert(f[i] == dx[i]);
            assert(g[i] == ex[i]);
        }
    }
    lemma_digits_tell_angle(x, other_x);
    assert(f.len() == g.len());
    assert(dy =~= ey) by {
        assert forall|i: int| 0 <= i < dy.len() implies dy[i] == ey[i] by {
            assert(f[dx.len() + 1 + i] == dy[i]);
            assert(g[ex.len() + 1 + i] == ey[i]);
        }
    }
    lemma_digits_tell_angle(y, other_y);
}

} // verus!
