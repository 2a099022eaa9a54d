//! The frame cycle's phases and the policy for failed frame acquisitions.
use vstd::prelude::*;

verus! {

/// Why the surface could not hand out its next image.
#[derive(Clone, Copy, Debug, PartialEq, Eq, Structural)]
pub enum AcquireError {
    Lost,
    Outdated,
    OutOfMemory,
    Other,
    Timeout,
}

/// wgpu's reason for a failed `Surface::get_current_texture`; its five unit
/// variants are visible so that they can be told apart.
#[verifier::external_type_specification]
pub struct ExSurfaceError(wgpu::SurfaceError);

impl AcquireError {
    /// The failure that wgpu reported, as this library names it.
    pub fn from_wgpu(e: &wgpu::SurfaceError) -> (r: AcquireError)
        ensures
            r == match *e {
                wgpu::SurfaceError::Lost => AcquireError::Lost,
                wgpu::SurfaceError::Outdated => AcquireError::Outdated,
                wgpu::SurfaceError::OutOfMemory => AcquireError::OutOfMemory,
                wgpu::SurfaceError::Other => AcquireError::Other,
                wgpu::SurfaceError::Timeout => AcquireError::Timeout,
            },
    {
        match e {
            wgpu::SurfaceError::Lost => AcquireError::Lost,
            wgpu::SurfaceError::Outdated => AcquireError::Outdated,
            wgpu::SurfaceError::OutOfMemory => AcquireError::OutOfMemory,
            wgpu::SurfaceError::Other => AcquireError::Other,
            wgpu::SurfaceError::Timeout => AcquireError::Timeout,
        }
    }
}

/// How the frame driver reacts to a failed acquisition.
#[derive(Clone, Copy, Debug, PartialEq, Eq, Structural)]
pub enum Recovery {
    /// The surface is stale: configure it again with the last good size.
    Reconfigure,
    /// The image came too late: draw nothing this time and try again.
    Skip,
    /// Nothing can be drawn any more: shut down.
    Fatal,
}

pub open spec fn recovery_of(e: AcquireError) -> Recovery {
    match e {
        AcquireError::Lost | AcquireError::Outdated => Recovery::Reconfigure,
        AcquireError::Timeout => Recovery::Skip,
        AcquireError::OutOfMemory | AcquireError::Other => Recovery::Fatal,
    }
}

/// Sorts an acquisition failure into the reaction it calls for.
pub fn classify(e: AcquireError) -> (r: Recovery)
    ensures
        r == recovery_of(e),
{
    match e {
        AcquireError::Lost | AcquireError::Outdated => Recovery::Reconfigure,
        AcquireError::Timeout => Recovery::Skip,
        AcquireError::OutOfMemory | AcquireError::Other => Recovery::Fatal,
    }
}

/// Where the driver stands in the cycle acquire, record, submit, present.
#[derive(Clone, Copy, Debug, PartialEq, Eq, Structural)]
pub enum FramePhase {
    Idle,
    Acquiring,
    Recording,
    Submitted,
    Presented,
    ShuttingDown,
}

/// The phase that follows a finished step of recording, submitting or
/// presenting.
pub open spec fn after(p: FramePhase) -> FramePhase {
    match p {
        FramePhase::Recording => FramePhase::Submitted,
        FramePhase::Submitted => FramePhase::Presented,
        _ => FramePhase::Idle,
    }
}

} // verus!
