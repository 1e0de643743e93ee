//! The tracker: the state shared by the command surface and the tick loop, the decisions
//! of one tick, and the commands that start, stop and reconfigure the loop.
//!
//! The loop itself belongs to the driver. At every tick the driver asks
//! [`Head::begin_tick`] whether to go on, reads a frame, asks [`Head::admits`] whether the
//! frame may go to the detector, and hands what it got to [`Head::finish_tick`]. All of
//! these are short and none waits for input or output, so that they can run under one
//! lock while the reading, the detection and the actuator work run outside it.

use vstd::prelude::*;
use crate::camera_controller::{CameraController, CameraView};
use crate::errors::CameraError;
use crate::frame::{FrameView, RawFrame};
use crate::geometry::{normalized_center, BoundingBox, NormalizedPosition, PositionView};
use crate::servo_controller::AxisCommand;
use crate::transport::{IoOutcome, IoOutcomeView};

verus! {

/// Period of the tick loop, in milliseconds: about thirty ticks per second.
pub const TICK_PERIOD_MS: u64 = 33;

/// What the driver does about its loop after a call of [`Head::activate`].
#[derive(Debug, Clone, Copy, PartialEq, Eq)]
pub enum LoopCommand {
    /// Start the loop: none is running.
    Spawn,
    /// Nothing: the loop that runs goes on or ends by itself, or none runs and none is
    /// wanted.
    Keep,
}

/// What the loop does at the top of a tick.
#[derive(Debug, Clone, Copy, PartialEq, Eq)]
pub enum TickPlan {
    /// Leave the loop.
    Exit,
    /// Read a frame from the capture handle of this generation. Generation 0 means that
    /// no camera is open, so that the read can only fail.
    Capture(u64),
}

/// What the driver got hold of during a tick.
#[derive(Debug, PartialEq, Eq)]
pub enum Capture {
    /// No frame could be read.
    Failed,
    /// A frame, and the face that the detector found in it, if any.
    Frame { frame: RawFrame, face: Option<BoundingBox> },
}

/// Mathematical model of a [`Capture`].
pub enum CaptureView {
    Failed,
    Frame { frame: FrameView, face: Option<BoundingBox> },
}

impl View for Capture {
    type V = CaptureView;

    open spec fn view(&self) -> CaptureView {
        match self {
            Capture::Failed => CaptureView::Failed,
            Capture::Frame { frame, face } => CaptureView::Frame { frame: frame@, face: *face },
        }
    }
}

/// What a tick observed.
#[derive(Debug, Clone, Copy, PartialEq, Eq)]
pub enum TickEvent {
    /// The tick had no frame of the current capture handle to go by. Nothing changed.
    Skipped,
    /// A face was found at this position, which is now the last known position.
    Found(NormalizedPosition),
    /// The face that was tracked is gone: the last known position was cleared.
    FaceLost,
    /// No face was found and none was tracked. Nothing changed.
    NoFace,
}

/// Mathematical model of a [`TickEvent`].
pub enum TickEventView {
    Skipped,
    Found(PositionView),
    FaceLost,
    NoFace,
}

impl View for TickEvent {
    type V = TickEventView;

    open spec fn view(&self) -> TickEventView {
        match self {
            TickEvent::Skipped => TickEventView::Skipped,
            TickEvent::Found(position) => TickEventView::Found(position@),
            TickEvent::FaceLost => TickEventView::FaceLost,
            TickEvent::NoFace => TickEventView::NoFace,
        }
    }
}

/// A command for the registry to deliver, outside the lock of the tracker.
#[derive(Debug, Clone, PartialEq, Eq)]
pub struct Dispatch {
    pub device: String,
    pub command: AxisCommand,
}

/// Mathematical model of a [`Dispatch`].
pub struct DispatchView {
    pub device: Seq<char>,
    pub command: AxisCommand,
}

impl View for Dispatch {
    type V = DispatchView;

    open spec fn view(&self) -> DispatchView {
        DispatchView { device: self.device@, command: self.command }
    }
}

/// The result of a tick: what it observed, and the actuator command that follows from it
/// where a device is selected.
#[derive(Debug, Clone, PartialEq, Eq)]
pub struct TickReport {
    pub event: TickEvent,
    pub dispatch: Option<Dispatch>,
}

/// Mathematical model of a [`TickReport`].
pub struct TickReportView {
    pub event: TickEventView,
    pub dispatch: Option<DispatchView>,
}

impl View for TickReport {
    type V = TickReportView;

    open spec fn view(&self) -> TickReportView {
        TickReportView {
            event: self.event@,
            dispatch: match self.dispatch {
                Some(d) => Some(d@),
                None => None,
            },
        }
    }
}

/// The state that the command surface and the loop share, as the command surface sees it.
#[derive(Debug, Clone, Copy, PartialEq, Eq)]
pub struct TrackerState {
    pub active: bool,
    pub selected_camera: Option<usize>,
    pub last_position: Option<NormalizedPosition>,
}

/// The tracker.
#[derive(Debug)]
pub struct Head {
    active: bool,
    running: bool,
    last_position: Option<NormalizedPosition>,
    camera: CameraController,
    device: Option<String>,
}

/// Mathematical model of a [`Head`].
pub struct HeadView {
    /// Whether tracking is wanted.
    pub active: bool,
    /// Whether a loop exists: one was started and has not been told to leave.
    pub running: bool,
    /// Where the face was on the latest tick that had a frame to go by.
    pub last_position: Option<PositionView>,
    /// The camera source.
    pub camera: CameraView,
    /// The device that follows the face, if one is selected.
    pub device: Option<Seq<char>>,
}

impl HeadView {
    /// The tracker before anything was asked of it.
    pub open spec fn idle() -> HeadView {
        HeadView {
            active: false,
            running: false,
            last_position: None,
            camera: CameraView { selected: None, generation: 0 },
            device: None,
        }
    }

    /// The tracker after tracking was switched on or off, and what the driver does about
    /// its loop.
    ///
    /// Switching on asks for a loop only if none exists, and a loop that starts knows no
    /// position. Switching off starts and stops nothing by itself: the loop leaves at the
    /// top of its next tick.
    pub open spec fn activate(self, on: bool) -> (HeadView, LoopCommand) {
        if on && !self.running {
            (
                HeadView { active: true, running: true, last_position: None, ..self },
                LoopCommand::Spawn,
            )
        } else {
            (HeadView { active: on, ..self }, LoopCommand::Keep)
        }
    }

    /// The tracker after the top of a tick, and what the loop does.
    pub open spec fn begin_tick(self) -> (HeadView, TickPlan) {
        if self.active && self.running {
            (self, TickPlan::Capture(self.camera.generation as u64))
        } else {
            (HeadView { running: false, ..self }, TickPlan::Exit)
        }
    }

    /// Whether a frame comes from the current capture handle.
    pub open spec fn admits(self, frame: FrameView) -> bool {
        self.camera.admits(frame.generation as nat)
    }

    /// The command for the selected device that points it at `position`.
    pub open spec fn follow(self, position: PositionView) -> Option<DispatchView> {
        match self.device {
            Some(device) => Some(DispatchView { device, command: position.axis_command() }),
            None => None,
        }
    }

    /// The tracker after a tick, and the report of the tick.
    ///
    /// A tick without a frame, or with a frame of a capture handle that has been
    /// replaced, changes nothing. Otherwise the position of the face that was found
    /// becomes the last known position, and where none was found the last known position
    /// is cleared, which is reported as `FaceLost` only if there was one to clear.
    pub open spec fn finish_tick(self, capture: CaptureView) -> (HeadView, TickReportView) {
        match capture {
            CaptureView::Frame { frame, face } if self.admits(frame) => match face {
                Some(found) => {
                    let position = PositionView::of_center(found, frame.width, frame.height);
                    (
                        HeadView { last_position: Some(position), ..self },
                        TickReportView {
                            event: TickEventView::Found(position),
                            dispatch: self.follow(position),
                        },
                    )
                },
                None => (
                    HeadView { last_position: None, ..self },
                    TickReportView {
                        event: if self.last_position is Some {
                            TickEventView::FaceLost
                        } else {
                            TickEventView::NoFace
                        },
                        dispatch: None,
                    },
                ),
            },
            _ => (self, TickReportView { event: TickEventView::Skipped, dispatch: None }),
        }
    }

    /// The tracker after an attempt to switch to camera `index`, where `opened` tells how
    /// opening that camera went.
    pub open spec fn select_camera(self, index: usize, opened: IoOutcomeView) -> HeadView {
        HeadView { camera: self.camera.install(index, opened), ..self }
    }

    /// The tracker after the device that follows the face was chosen, or unset.
    pub open spec fn select_device(self, device: Option<Seq<char>>) -> HeadView {
        HeadView { device, ..self }
    }

    /// Every part of the model is well formed.
    pub open spec fn wf(self) -> bool {
        &&& self.camera.wf()
        &&& self.last_position matches Some(p) ==> p.in_unit_square()
    }
}

impl View for Head {
    type V = HeadView;

    closed spec fn view(&self) -> HeadView {
        HeadView {
            active: self.active,
            running: self.running,
            last_position: match self.last_position {
                Some(p) => Some(p@),
                None => None,
            },
            camera: self.camera@,
            device: match self.device {
                Some(d) => Some(d@),
                None => None,
            },
        }
    }
}

/// The face of interest among those that a detector found: the first.
pub fn first_face(faces: &Vec<BoundingBox>) -> (face: Option<BoundingBox>)
    ensures
        face == if faces@.len() > 0 {
            Some(faces@[0])
        } else {
            None
        },
{
    if faces.len() > 0 {
        Some(faces[0])
    } else {
        None
    }
}

impl Head {
    /// A tracker at rest: no loop, no camera, no device, no position.
    pub fn new() -> (head: Head)
        ensures
            head@ == HeadView::idle(),
    {
        Head {
            active: false,
            running: false,
            last_position: None,
            camera: CameraController::new(),
            device: None,
        }
    }

    /// Switches tracking on or off. Switching on what is on already is no second loop.
    pub fn activate(&mut self, on: bool) -> (command: LoopCommand)
        ensures
            (final(self)@, command) == old(self)@.activate(on),
    {
        if on && !self.running {
            self.active = true;
            self.running = true;
            self.last_position = None;
            LoopCommand::Spawn
        } else {
            self.active = on;
            LoopCommand::Keep
        }
    }

    /// The top of a tick: whether the loop goes on, and if so from which capture handle
    /// it reads.
    pub fn begin_tick(&mut self) -> (plan: TickPlan)
        ensures
            (final(self)@, plan) == old(self)@.begin_tick(),
    {
        if self.active && self.running {
            TickPlan::Capture(self.camera.generation())
        } else {
            self.running = false;
            TickPlan::Exit
        }
    }

    /// Whether `frame` may go to the detector: only a frame of the current capture handle
    /// may.
    pub fn admits(&self, frame: &RawFrame) -> (fresh: bool)
        ensures
            fresh == self@.admits(frame@),
    {
        self.camera.admits(frame.generation())
    }

    /// The rest of a tick: takes what the driver got hold of, records the position of the
    /// face, and says what follows.
    pub fn finish_tick(&mut self, capture: Capture) -> (report: TickReport)
        ensures
            (final(self)@, report@) == old(self)@.finish_tick(capture@),
    {
        match capture {
            Capture::Failed => TickReport { event: TickEvent::Skipped, dispatch: None },
            Capture::Frame { frame, face } => {
                if !self.admits(&frame) {
                    return TickReport { event: TickEvent::Skipped, dispatch: None };
                }
                match face {
                    Some(found) => {
                        let position = normalized_center(
                            found,
                            frame.width(),
                            frame.height(),
                        ).unwrap();
                        let dispatch = self.follow(&position);
                        self.last_position = Some(position);
                        TickReport { event: TickEvent::Found(position), dispatch }
                    },
                    None => {
                        let event = if self.last_position.is_some() {
                            TickEvent::FaceLost
                        } else {
                            TickEvent::NoFace
                        };
                        self.last_position = None;
                        TickReport { event, dispatch: None }
                    },
                }
            },
        }
    }

    /// The command for the selected device that points it at `position`.
    fn follow(&self, position: &NormalizedPosition) -> (dispatch: Option<Dispatch>)
        ensures
            match dispatch {
                Some(d) => self@.follow(position@) == Some(d@),
                None => self@.follow(position@) is None,
            },
    {
        match &self.device {
            Some(device) => Some(
                Dispatch { device: device.clone(), command: position.to_axis_command() },
            ),
            None => None,
        }
    }

    /// Switches to camera `index`, where `opened` tells how opening that camera went.
    ///
    /// A camera that is open replaces the current capture handle in one step, and frames
    /// of the handle it replaces are admitted no more. A camera that could not be opened
    /// is reported, and the loop keeps the handle it has. Either way the loop is neither
    /// stopped nor started.
    pub fn select_camera(&mut self, index: usize, opened: &IoOutcome) -> (selected: Result<
        (),
        CameraError,
    >)
        ensures
            final(self)@ == old(self)@.select_camera(index, opened@),
            match selected {
                Ok(_) => old(self)@.camera.install_failure(opened@) is None,
                Err(e) => old(self)@.camera.install_failure(opened@) == Some(e@),
            },
    {
        match self.camera.install(index, opened) {
            Ok(_) => Ok(()),
            Err(e) => Err(e),
        }
    }

    /// Chooses the device that follows the face; `None` lets no device follow it.
    pub fn select_device(&mut self, device: Option<String>)
        ensures
            final(self)@ == old(self)@.select_device(
                match device {
                    Some(d) => Some(d@),
                    None => None,
                },
            ),
    {
        self.device = device;
    }

    /// The last known position of the face.
    pub fn current_position(&self) -> (position: Option<NormalizedPosition>)
        ensures
            match position {
                Some(p) => self@.last_position == Some(p@),
                None => self@.last_position is None,
            },
    {
        self.last_position
    }

    /// The shared state.
    pub fn state(&self) -> (state: TrackerState)
        ensures
            state.active == self@.active,
            state.selected_camera == self@.camera.selected,
            match state.last_position {
                Some(p) => self@.last_position == Some(p@),
                None => self@.last_position is None,
            },
    {
        TrackerState {
            active: self.active,
            selected_camera: self.camera.selected_camera_index(),
            last_position: self.last_position,
        }
    }

    /// The camera source.
    pub fn camera(&self) -> (camera: &CameraController)
        ensures
            camera@ == self@.camera,
    {
        &self.camera
    }

    /// The device that follows the face, if one is selected.
    pub fn selected_device(&self) -> (device: Option<&String>)
        ensures
            match device {
                Some(d) => self@.device == Some(d@),
                None => self@.device is None,
            },
    {
        self.device.as_ref()
    }

    /// Whether a loop exists.
    pub fn is_running(&self) -> (running: bool)
        ensures
            running == self@.running,
    {
        self.running
    }

    /// A move of the selected device to the angles `x` and `y`, each limited to the range
    /// of an axis, for the registry to deliver. There is none while no device is selected.
    pub fn set_servo_position(&self, x: Option<u8>, y: Option<u8>) -> (dispatch: Option<Dispatch>)
        ensures
            match dispatch {
                Some(d) => self@.device == Some(d@.device) && d@.command == AxisCommand::clamped(
                    x,
                    y,
                ),
                None => self@.device is None,
            },
    {
        match &self.device {
            Some(device) => Some(
                Dispatch { device: device.clone(), command: AxisCommand::new(x, y) },
            ),
            None => None,
        }
    }
}

/// A call of the tracker, as far as its effect on the tracker goes.
pub enum HeadCall {
    Activate(bool),
    BeginTick,
    FinishTick(CaptureView),
    SelectCamera(usize, IoOutcomeView),
    SelectDevice(Option<Seq<char>>),
}

impl HeadCall {
    /// The tracker after the call.
    pub open spec fn apply(self, head: HeadView) -> HeadView {
        match self {
            HeadCall::Activate(on) => head.activate(on).0,
            HeadCall::BeginTick => head.begin_tick().0,
            HeadCall::FinishTick(capture) => head.finish_tick(capture).0,
            HeadCall::SelectCamera(index, opened) => head.select_camera(index, opened),
            HeadCall::SelectDevice(device) => head.select_device(device),
        }
    }

    /// Whether the call tells the driver to start a loop.
    pub open spec fn starts_loop(self, head: HeadView) -> bool {
        self matches HeadCall::Activate(on) && head.activate(on).1 == LoopCommand::Spawn
    }

    /// Whether the call tells the loop that exists to leave.
    pub open spec fn ends_loop(self, head: HeadView) -> bool {
        self is BeginTick && head.running && head.begin_tick().1 == TickPlan::Exit
    }

    /// Whether the call is a tick that reports a face that is gone.
    pub open spec fn loses_face(self, head: HeadView) -> bool {
        self matches HeadCall::FinishTick(capture) && head.finish_tick(capture).1.event
            == TickEventView::FaceLost
    }

    /// Whether the call is a tick that reports a face.
    pub open spec fn finds_face(self, head: HeadView) -> bool {
        self matches HeadCall::FinishTick(capture) && head.finish_tick(capture).1.event is Found
    }
}

/// The tracker after a sequence of calls.
pub open spec fn after_calls(head: HeadView, calls: Seq<HeadCall>) -> HeadView
    decreases calls.len(),
{
    if calls.len() == 0 {
        head
    } else {
        after_calls(calls[0].apply(head), calls.drop_first())
    }
}

/// How many of a sequence of calls, made one after the other from `head`, satisfy
/// `counted`, which is given the tracker that the call meets and the call.
pub open spec fn count_calls(
    head: HeadView,
    calls: Seq<HeadCall>,
    counted: spec_fn(HeadView, HeadCall) -> bool,
) -> nat
    decreases calls.len(),
{
    if calls.len() == 0 {
        0
    } else {
        (if counted(head, calls[0]) {
            1nat
        } else {
            0nat
        }) + count_calls(calls[0].apply(head), calls.drop_first(), counted)
    }
}

/// The tracker after a sequence of ticks.
pub open spec fn after_ticks(head: HeadView, captures: Seq<CaptureView>) -> HeadView
    decreases captures.len(),
{
    if captures.len() == 0 {
        head
    } else {
        after_ticks(head, captures.drop_last()).finish_tick(captures.last()).0
    }
}

/// 1 for a condition that holds, 0 for one that does not.
pub open spec fn one_if(condition: bool) -> nat {
    if condition {
        1
    } else {
        0
    }
}

/// Switching tracking on twice in a row is the same as switching it on once: the second
/// call changes nothing and asks for no loop.
pub proof fn lemma_activate_is_idempotent(head: HeadView)
    ensures
        head.activate(true).0.activate(true) == (head.activate(true).0, LoopCommand::Keep),
        head.activate(true).0.active && head.activate(true).0.running,
{
}

/// Whatever calls are made in whatever order, the loops that were started and not yet
/// told to leave are as many as `running` says: one or none. A tracker that begins at
/// rest therefore never has two loops.
pub proof fn lemma_at_most_one_loop(head: HeadView, calls: Seq<HeadCall>)
    ensures
        count_calls(head, calls, |h: HeadView, c: HeadCall| c.starts_loop(h)) + one_if(
            head.running,
        ) == count_calls(head, calls, |h: HeadView, c: HeadCall| c.ends_loop(h)) + one_if(
            after_calls(head, calls).running,
        ),
    decreases calls.len(),
{
    if calls.len() > 0 {
        lemma_at_most_one_loop(calls[0].apply(head), calls.drop_first());
    }
}

/// Whatever came before, a tick that has a frame of the current capture handle to go by
/// leaves a position known exactly if it found a face.
pub proof fn lemma_tick_settles_position(head: HeadView, frame: FrameView, face: Option<BoundingBox>)
    requires
        head.admits(frame),
    ensures
        head.finish_tick(CaptureView::Frame { frame, face }).0.last_position is Some <==> face is Some,
        face matches Some(found) ==> head.finish_tick(CaptureView::Frame { frame, face }).1.event
            == TickEventView::Found(PositionView::of_center(found, frame.width, frame.height)),
        face is None ==> (head.finish_tick(CaptureView::Frame { frame, face }).1.event
            == TickEventView::FaceLost <==> head.last_position is Some),
{
}

/// No position is known that no tick has found: from a tracker that knows no position,
/// such as one whose loop has just started, calls among which no tick finds a face lead
/// to a tracker that knows no position.
pub proof fn lemma_no_position_without_a_find(head: HeadView, calls: Seq<HeadCall>)
    requires
        head.last_position is None,
        count_calls(head, calls, |h: HeadView, c: HeadCall| c.finds_face(h)) == 0,
    ensures
        after_calls(head, calls).last_position is None,
    decreases calls.len(),
{
    if calls.len() > 0 {
        lemma_no_position_without_a_find(calls[0].apply(head), calls.drop_first());
    }
}

/// Ticks leave the camera source, the selected device and the loop alone.
pub proof fn lemma_ticks_keep_configuration(head: HeadView, captures: Seq<CaptureView>)
    ensures
        after_ticks(head, captures).camera == head.camera,
        after_ticks(head, captures).device == head.device,
        after_ticks(head, captures).active == head.active,
        after_ticks(head, captures).running == head.running,
    decreases captures.len(),
{
    if captures.len() > 0 {
        lemma_ticks_keep_configuration(head, captures.drop_last());
    }
}

/// After any sequence of ticks of which the latest had a frame of the current capture
/// handle to go by, a position is known exactly if that tick found a face, and it is the
/// position of that face.
pub proof fn lemma_position_follows_latest_frame(
    head: HeadView,
    captures: Seq<CaptureView>,
    frame: FrameView,
    face: Option<BoundingBox>,
)
    requires
        captures.len() > 0,
        captures.last() == (CaptureView::Frame { frame, face }),
        head.admits(frame),
    ensures
        after_ticks(head, captures).last_position is Some <==> face is Some,
        face matches Some(found) ==> after_ticks(head, captures).last_position == Some(
            PositionView::of_center(found, frame.width, frame.height),
        ),
{
    lemma_ticks_keep_configuration(head, captures.drop_last());
}

/// A tick that has no frame of the current capture handle to go by leaves the last known
/// position as it was.
pub proof fn lemma_skipped_tick_changes_nothing(head: HeadView, capture: CaptureView)
    requires
        capture matches CaptureView::Frame { frame, .. } ==> !head.admits(frame),
    ensures
        head.finish_tick(capture) == (
            head,
            TickReportView { event: TickEventView::Skipped, dispatch: None },
        ),
{
}

/// A face that disappears is reported once: on the first tick that does not find it the
/// position is cleared and the tick reports `FaceLost`; on the tick after that, if it
/// finds no face either, nothing changes and nothing is reported but `NoFace`.
pub proof fn lemma_face_lost_is_reported_once(
    head: HeadView,
    gone: FrameView,
    still_gone: FrameView,
)
    requires
        head.last_position is Some,
        head.admits(gone),
        head.admits(still_gone),
    ensures
        head.finish_tick(CaptureView::Frame { frame: gone, face: None }).1.event
            == TickEventView::FaceLost,
        head.finish_tick(CaptureView::Frame { frame: gone, face: None }).0.last_position is None,
        head.finish_tick(CaptureView::Frame { frame: gone, face: None }).0.finish_tick(
            CaptureView::Frame { frame: still_gone, face: None },
        ) == (
            head.finish_tick(CaptureView::Frame { frame: gone, face: None }).0,
            TickReportView { event: TickEventView::NoFace, dispatch: None },
        ),
{
}

/// Whatever calls are made in whatever order, no face is reported lost that was not
/// found before: the reports `FaceLost` are at most as many as the reports `Found`, and
/// one more where a position was known at the start.
pub proof fn lemma_every_loss_follows_a_find(head: HeadView, calls: Seq<HeadCall>)
    ensures
        count_calls(head, calls, |h: HeadView, c: HeadCall| c.loses_face(h)) <= count_calls(
            head,
            calls,
            |h: HeadView, c: HeadCall| c.finds_face(h),
        ) + one_if(head.last_position is Some),
    decreases calls.len(),
{
    if calls.len() > 0 {
        lemma_every_loss_follows_a_find(calls[0].apply(head), calls.drop_first());
    }
}

/// No call lowers the generation of the camera source.
pub proof fn lemma_generation_never_decreases(head: HeadView, calls: Seq<HeadCall>)
    ensures
        after_calls(head, calls).camera.generation >= head.camera.generation,
    decreases calls.len(),
{
    if calls.len() > 0 {
        lemma_generation_never_decreases(calls[0].apply(head), calls.drop_first());
    }
}

/// Once a camera has been switched, no tick goes by a frame of a capture handle that was
/// in use before the switch, however late that frame arrives and whatever calls were
/// made in between: such a frame is not admitted, and the tick that gets it changes
/// nothing.
pub proof fn lemma_superseded_frames_are_skipped(
    head: HeadView,
    index: usize,
    opened: IoOutcomeView,
    calls: Seq<HeadCall>,
    frame: FrameView,
    face: Option<BoundingBox>,
)
    requires
        opened is Done,
        head.camera.generation < u64::MAX,
        frame.generation <= head.camera.generation,
    ensures
        !after_calls(head.select_camera(index, opened), calls).admits(frame),
        after_calls(head.select_camera(index, opened), calls).finish_tick(
            CaptureView::Frame { frame, face },
        ) == (
            after_calls(head.select_camera(index, opened), calls),
            TickReportView { event: TickEventView::Skipped, dispatch: None },
        ),
{
    lemma_generation_never_decreases(head.select_camera(index, opened), calls);
}

/// A tick reads from the capture handle that is current when the tick begins, and from
/// no other: right after a camera was switched, that is the handle of the new camera.
pub proof fn lemma_ticks_read_from_the_current_handle(
    head: HeadView,
    index: usize,
    opened: IoOutcomeView,
)
    requires
        opened is Done,
        head.camera.generation < u64::MAX,
    ensures
        head.begin_tick().1 matches TickPlan::Capture(generation) ==> generation
            == head.camera.generation,
        head.select_camera(index, opened).begin_tick().1 matches TickPlan::Capture(generation)
            ==> generation == head.camera.generation + 1,
        head.select_camera(index, opened).begin_tick().1 is Exit <==> head.begin_tick().1 is Exit,
{
}

/// Switching the camera neither stops nor starts the loop, and leaves the last known
/// position alone. A camera that could not be opened changes nothing at all: the loop
/// keeps the capture handle it has.
pub proof fn lemma_select_camera_keeps_loop(head: HeadView, index: usize, opened: IoOutcomeView)
    ensures
        head.select_camera(index, opened).active == head.active,
        head.select_camera(index, opened).running == head.running,
        head.select_camera(index, opened).last_position == head.last_position,
        !(opened is Done) ==> head.select_camera(index, opened) == head,
        opened is Done && head.camera.generation < u64::MAX ==> head.select_camera(
            index,
            opened,
        ).camera == (CameraView {
            selected: Some(index),
            generation: head.camera.generation + 1,
        }),
{
}

/// A loop that starts knows no position: none is known until a tick finds a face.
pub proof fn lemma_fresh_loop_knows_no_position(head: HeadView)
    requires
        !head.running,
    ensures
        head.activate(true).1 == LoopCommand::Spawn,
        head.activate(true).0.last_position is None,
{
}

} // verus!
