//! Verified core of a head that follows a face: the decisions of the loop from
//! perception to actuation, the wire formats of its two actuator backends, the device
//! registry and the camera source.
//!
//! The crate opens no port, no socket and no camera. Every operation that needs one is a
//! step of a small state machine: the caller, here called the driver, performs the
//! pending input or output and reports its outcome, and the machine decides what
//! follows. Each machine has a mathematical model, its view, and the laws of the model
//! are proved next to it as proof functions.
//!
//! - [`head`]: the tracker, its tick and its commands.
//! - [`camera_controller`], [`frame`]: the camera source and the frames it yields.
//! - [`geometry`]: the position of a face in a frame.
//! - [`device_manager`]: the registry of actuator devices.
//! - [`servo_controller`]: the serial backend.
//! - [`socket_communication`]: the remote backend.
//! - [`transport`], [`errors`]: outcomes of input and output, and errors.

pub mod errors;
pub mod transport;
pub mod servo_controller;
pub mod geometry;
pub mod frame;
pub mod camera_controller;
pub mod socket_communication;
pub mod device_manager;
pub mod head;
