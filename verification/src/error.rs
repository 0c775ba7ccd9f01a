use vstd::prelude::*;

verus! {

/// Why a render, or the start-up before it, did not complete.
#[derive(Debug, PartialEq, Eq)]
pub enum RenderError {
    /// The dimensions are zero, the bounce limits are out of order, no
    /// sample is taken, or the frame has more pixels than one dispatch can
    /// address.  Raised before any device interaction.
    InvalidConfig { width: u32, height: u32 },
    /// The kernel or program source failed to build; carries the backend's
    /// diagnostic text.
    Compile { diagnostic: String },
    /// The device could not provide or map a buffer of `records` records.
    Resource { records: u64 },
    /// The device reported a failed submission or execution.
    Dispatch,
    /// An asset could not be read or the image could not be written; carries
    /// the offending path.
    Io { path: String },
}

} // verus!
