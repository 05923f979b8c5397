use vstd::prelude::*;

verus! {

/// Why the renderer could not acquire a drawable surface image this frame.
#[derive(Clone, Copy, Debug, PartialEq, Eq, Structural)]
pub enum SurfaceFault {
    /// The surface is momentarily unavailable (acquire timed out or the
    /// swapchain is outdated): recoverable.
    Unavailable,
    /// The surface is gone and cannot be brought back.
    Lost,
    /// The device is out of memory.
    OutOfMemory,
}

/// What the viewer does about a dropped frame.
#[derive(Clone, Copy, Debug, PartialEq, Eq, Structural)]
pub enum FrameAction {
    /// Reconfigure the surface and retry on the next redraw; the frame is
    /// dropped, no partial draw is issued.
    Reconfigure,
    /// Leave the process with a diagnostic.
    Exit,
}

/// The frame-fault policy: a momentarily unavailable surface is recovered by
/// reconfiguring and retrying next frame; a lost surface or memory
/// exhaustion ends the process.
pub open spec fn frame_fault_action_spec(fault: SurfaceFault) -> FrameAction {
    match fault {
        SurfaceFault::Unavailable => FrameAction::Reconfigure,
        SurfaceFault::Lost => FrameAction::Exit,
        SurfaceFault::OutOfMemory => FrameAction::Exit,
    }
}

/// Decides how the render loop answers a surface fault.
pub fn frame_fault_action(fault: SurfaceFault) -> (a: FrameAction)
    ensures
        a == frame_fault_action_spec(fault),
{
    match fault {
        SurfaceFault::Unavailable => FrameAction::Reconfigure,
        SurfaceFault::Lost => FrameAction::Exit,
        SurfaceFault::OutOfMemory => FrameAction::Exit,
    }
}

/// A recoverable fault never ends the process, and a fatal one never lets
/// the loop carry on: the two outcomes partition the faults.
pub proof fn lemma_fault_policy_partition(fault: SurfaceFault)
    ensures
        frame_fault_action_spec(fault) == FrameAction::Reconfigure <==> fault == SurfaceFault::Unavailable,
{
}

} // verus!
