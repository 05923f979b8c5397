use vstd::prelude::*;

verus! {

/// Recoverable faults of the page-refresh pipeline.
///
/// Both are handled at the viewer-state boundary by keeping the previous
/// page displayed: the caller logs the fault and carries on.
#[derive(Clone, Copy, Debug, PartialEq, Eq, Structural)]
pub enum ViewerError {
    /// The page source could not rasterize the requested page.
    PageDecode,
    /// A pixel buffer's byte length does not match its stated dimensions,
    /// or its dimensions cannot back a GPU texture.
    InvalidBufferSize,
}

} // verus!
