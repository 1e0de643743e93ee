//! Error taxonomy of the actuator backends and of the camera source.

use vstd::prelude::*;

verus! {

/// Failure of a command sent to an actuator backend.
#[derive(Debug, Clone, PartialEq, Eq)]
pub enum DeviceError {
    /// The transport of the named device could not be opened; the second field is the reason.
    Unavailable(String, String),
    /// Writing to, flushing or reading from an open transport failed.
    Io(String),
    /// The remote peer did not answer the greeting with the expected acknowledgment.
    HandshakeFailed,
    /// The transport did not complete an operation within its time limit.
    Timeout,
}

/// Mathematical model of a [`DeviceError`].
pub enum DeviceErrorView {
    Unavailable(Seq<char>, Seq<char>),
    Io(Seq<char>),
    HandshakeFailed,
    Timeout,
}

impl View for DeviceError {
    type V = DeviceErrorView;

    open spec fn view(&self) -> DeviceErrorView {
        match self {
            DeviceError::Unavailable(name, reason) => DeviceErrorView::Unavailable(name@, reason@),
            DeviceError::Io(reason) => DeviceErrorView::Io(reason@),
            DeviceError::HandshakeFailed => DeviceErrorView::HandshakeFailed,
            DeviceError::Timeout => DeviceErrorView::Timeout,
        }
    }
}

/// Failure of the camera source.
#[derive(Debug, Clone, PartialEq, Eq)]
pub enum CameraError {
    /// The requested camera could not be opened; the field is the reason.
    OpenFailed(String),
    /// A frame could not be read, or what was read is not a usable frame.
    ReadFailed,
}

/// Mathematical model of a [`CameraError`].
pub enum CameraErrorView {
    OpenFailed(Seq<char>),
    ReadFailed,
}

impl View for CameraError {
    type V = CameraErrorView;

    open spec fn view(&self) -> CameraErrorView {
        match self {
            CameraError::OpenFailed(reason) => CameraErrorView::OpenFailed(reason@),
            CameraError::ReadFailed => CameraErrorView::ReadFailed,
        }
    }
}

} // verus!
