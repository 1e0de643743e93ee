//! Camera source: enumeration of the cameras of this machine, the choice of the camera to
//! open, and the bookkeeping of the capture handle that is currently installed.

use vstd::prelude::*;
use nokhwa::utils::CameraInfo;
use crate::errors::{CameraError, CameraErrorView};
use crate::transport::{IoOutcome, IoOutcomeView};

verus! {

/// Description of one camera, as `nokhwa` reports it. Its contents are not inspected here.
#[verifier::external_type_specification]
#[verifier::external_body]
pub struct ExCameraInfo(nokhwa::utils::CameraInfo);

/// The enumeration backends, in the order in which they are tried.
#[derive(Debug, Clone, Copy, PartialEq, Eq)]
pub enum CameraBackend {
    /// The enumeration interface of the platform the head is built for.
    Native,
    /// Whatever interface the capture library selects by itself.
    Generic,
}

/// Asks one backend for the cameras of this machine by calling `nokhwa::query`, with
/// `ApiBackend::AVFoundation` for the native backend and `ApiBackend::Auto` for the
/// generic one. `None` stands for an enumeration that failed. The answer depends on the
/// machine and on the moment, so nothing is claimed about it.
#[verifier::external_body]
fn query_backend(backend: CameraBackend) -> (found: Option<Vec<CameraInfo>>) {
    let api = match backend {
        CameraBackend::Native => nokhwa::utils::ApiBackend::AVFoundation,
        CameraBackend::Generic => nokhwa::utils::ApiBackend::Auto,
    };
    nokhwa::query(api).ok()
}

/// The list that a probe settles on: that of the native backend where its enumeration
/// succeeded, else that of the generic backend, else no camera at all.
pub open spec fn preferred_listing(
    native: Option<Vec<CameraInfo>>,
    generic: Option<Vec<CameraInfo>>,
) -> Seq<CameraInfo> {
    match native {
        Some(cameras) => cameras@,
        None => match generic {
            Some(cameras) => cameras@,
            None => Seq::empty(),
        },
    }
}

/// Chooses between the answers of the two backends. A failed enumeration never ends the
/// probe, and a list without cameras is an answer like any other.
pub fn prefer_listing(native: Option<Vec<CameraInfo>>, generic: Option<Vec<CameraInfo>>) -> (cameras:
    Vec<CameraInfo>)
    ensures
        cameras@ == preferred_listing(native, generic),
{
    match native {
        Some(cameras) => cameras,
        None => match generic {
            Some(cameras) => cameras,
            None => Vec::new(),
        },
    }
}

/// The reason given where a camera is to be opened and the machine has none.
pub open spec fn no_camera_reason() -> Seq<char> {
    "no camera available"@
}

/// The camera that an open request refers to, where the request names `requested` and
/// the probe listed the cameras `available`.
pub open spec fn resolved(requested: Option<usize>, available: Seq<CameraInfo>) -> Result<
    CameraChoice,
    CameraErrorView,
> {
    match requested {
        Some(index) => Ok(CameraChoice::Requested(index)),
        None => if available.len() > 0 {
            Ok(CameraChoice::Listed(available[0]))
        } else {
            Err(CameraErrorView::OpenFailed(no_camera_reason()))
        },
    }
}

/// Which camera an open request refers to.
#[derive(Debug, PartialEq)]
pub enum CameraChoice {
    /// The camera with the given index, as the caller asked.
    Requested(usize),
    /// This camera, which the probe listed first.
    Listed(CameraInfo),
}

/// The camera source. It records which camera is selected and which capture handle is
/// the current one.
///
/// Handles are numbered in the order in which they are installed, from 1. The number of
/// the current handle is the generation of the source; it is 0 while no camera has been
/// opened. A frame carries the generation of the handle that produced it.
#[derive(Debug)]
pub struct CameraController {
    selected_camera_index: Option<usize>,
    generation: u64,
}

/// Mathematical model of a [`CameraController`].
pub struct CameraView {
    pub selected: Option<usize>,
    pub generation: nat,
}

impl CameraView {
    /// A camera is selected exactly when a handle has been installed.
    pub open spec fn wf(self) -> bool {
        (self.generation == 0) == (self.selected is None)
    }

    /// The source after an attempt to install a handle for camera `index`, where `opened`
    /// tells how opening that camera went.
    pub open spec fn install(self, index: usize, opened: IoOutcomeView) -> CameraView {
        if opened is Done && self.generation < u64::MAX {
            CameraView { selected: Some(index), generation: self.generation + 1 }
        } else {
            self
        }
    }

    /// The error of an attempt to install a handle, where `opened` tells how opening the
    /// camera went. There is none exactly when the camera is open and the generations are
    /// not used up.
    pub open spec fn install_failure(self, opened: IoOutcomeView) -> Option<CameraErrorView> {
        match opened {
            IoOutcomeView::Done(_) => if self.generation < u64::MAX {
                None
            } else {
                Some(CameraErrorView::OpenFailed("capture handles exhausted"@))
            },
            IoOutcomeView::TimedOut => Some(CameraErrorView::OpenFailed("timed out"@)),
            IoOutcomeView::Failed(reason) => Some(CameraErrorView::OpenFailed(reason)),
        }
    }

    /// Whether a frame of the given generation comes from the current handle.
    pub open spec fn admits(self, generation: nat) -> bool {
        self.generation > 0 && generation == self.generation
    }
}

impl View for CameraController {
    type V = CameraView;

    closed spec fn view(&self) -> CameraView {
        CameraView { selected: self.selected_camera_index, generation: self.generation as nat }
    }
}

impl CameraController {
    #[verifier::type_invariant]
    spec fn inv(self) -> bool {
        (self.generation == 0) == (self.selected_camera_index is None)
    }

    /// A source without a camera.
    pub fn new() -> (source: CameraController)
        ensures
            source@ == (CameraView { selected: None, generation: 0 }),
    {
        CameraController { selected_camera_index: None, generation: 0 }
    }

    /// Lists the cameras of this machine. The native backend is asked first; the generic
    /// one only if the native enumeration failed. The result is what
    /// [`prefer_listing`] settles on for the answers received.
    pub fn get_available_cameras() -> (cameras: Vec<CameraInfo>) {
        let native = query_backend(CameraBackend::Native);
        if native.is_some() {
            return prefer_listing(native, None);
        }
        let generic = query_backend(CameraBackend::Generic);
        prefer_listing(None, generic)
    }

    /// Decides which camera to open. A requested index is taken as it is. Without one the
    /// first of the `available` cameras that the probe listed is taken, and the request
    /// fails if the probe listed none.
    pub fn resolve(requested: Option<usize>, available: Vec<CameraInfo>) -> (choice: Result<
        CameraChoice,
        CameraError,
    >)
        ensures
            match choice {
                Ok(chosen) => resolved(requested, available@) == Ok::<CameraChoice, CameraErrorView>(
                    chosen,
                ),
                Err(e) => resolved(requested, available@) == Err::<CameraChoice, CameraErrorView>(
                    e@,
                ),
            },
    {
        let mut available = available;
        match requested {
            Some(index) => Ok(CameraChoice::Requested(index)),
            None => if available.len() > 0 {
                Ok(CameraChoice::Listed(available.swap_remove(0)))
            } else {
                Err(CameraError::OpenFailed("no camera available".to_owned()))
            },
        }
    }

    /// Decides which camera an open request refers to, probing the cameras of this
    /// machine where the request names none. A request that names a camera causes no
    /// probe. For the list that the probe brought, the decision is that of
    /// [`CameraController::resolve`].
    pub fn plan_open(requested: Option<usize>) -> (choice: Result<CameraChoice, CameraError>)
        ensures
            requested matches Some(index) ==> choice == Ok::<CameraChoice, CameraError>(
                CameraChoice::Requested(index),
            ),
            requested is None ==> match choice {
                Ok(chosen) => chosen is Listed,
                Err(e) => e@ == CameraErrorView::OpenFailed(no_camera_reason()),
            },
    {
        match requested {
            Some(_) => Self::resolve(requested, Vec::new()),
            None => Self::resolve(None, Self::get_available_cameras()),
        }
    }

    /// Index of the selected camera.
    pub fn selected_camera_index(&self) -> (index: Option<usize>)
        ensures
            index == self@.selected,
            self@.wf(),
    {
        proof {
            use_type_invariant(self);
        }
        self.selected_camera_index
    }

    /// Generation of the current handle; 0 while there is none.
    pub fn generation(&self) -> (generation: u64)
        ensures
            generation == self@.generation,
            self@.wf(),
    {
        proof {
            use_type_invariant(self);
        }
        self.generation
    }

    /// Whether a frame of the given generation comes from the current handle.
    pub fn admits(&self, generation: u64) -> (fresh: bool)
        ensures
            fresh == self@.admits(generation as nat),
    {
        self.generation > 0 && generation == self.generation
    }

    /// Replaces the current handle by one for camera `index`, where `opened` tells how
    /// opening that camera went. The replacement is a single step: the selection and the
    /// generation change together, or not at all.
    ///
    /// On success the new generation is returned; it is larger than every generation
    /// before it, so that no frame of an earlier handle is admitted again. A camera that
    /// could not be opened leaves the source as it was.
    pub fn install(&mut self, index: usize, opened: &IoOutcome) -> (installed: Result<
        u64,
        CameraError,
    >)
        ensures
            final(self)@ == old(self)@.install(index, opened@),
            final(self)@.wf(),
            match installed {
                Ok(generation) => old(self)@.install_failure(opened@) is None && generation
                    == old(self)@.generation + 1,
                Err(e) => old(self)@.install_failure(opened@) == Some(e@),
            },
    {
        proof {
            use_type_invariant(&*self);
        }
        match opened {
            IoOutcome::Done(_) => {
                if self.generation == u64::MAX {
                    Err(CameraError::OpenFailed("capture handles exhausted".to_owned()))
                } else {
                    let generation: u64 = self.generation + 1;
                    *self = CameraController { selected_camera_index: Some(index), generation };
                    Ok(generation)
                }
            },
            IoOutcome::TimedOut => Err(CameraError::OpenFailed("timed out".to_owned())),
            IoOutcome::Failed(reason) => Err(CameraError::OpenFailed(reason.clone())),
        }
    }
}

} // verus!
