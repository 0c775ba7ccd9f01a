//! Start-up: what becomes of loading and building shader sources.
//!
//! Reading a file and compiling a program are the caller's work; whether
//! their outcome lets the process go on is decided here.

use vstd::prelude::*;
use crate::error::RenderError;

verus! {

/// The text of the asset at `path`, given what reading it returned: the
/// text as read, or an `Io` failure naming the path if nothing could be
/// read.
pub fn loaded_source(path: String, text: Option<String>) -> (r: Result<String, RenderError>)
    ensures
        text matches Some(t) ==> r == Ok::<String, RenderError>(t),
        text is None ==> r == Err::<String, RenderError>(RenderError::Io { path }),
{
    match text {
        Some(t) => Ok(t),
        None => Err(RenderError::Io { path }),
    }
}

/// The outcome of building a kernel or program, given what the backend
/// returned: the built program, or a `Compile` failure carrying the
/// backend's diagnostic text.
pub fn build_outcome<T>(built: Result<T, String>) -> (r: Result<T, RenderError>)
    ensures
        built matches Ok(program) ==> r == Ok::<T, RenderError>(program),
        built matches Err(diagnostic) ==> r == Err::<T, RenderError>(
            RenderError::Compile { diagnostic },
        ),
{
    match built {
        Ok(program) => Ok(program),
        Err(diagnostic) => Err(RenderError::Compile { diagnostic }),
    }
}

} // verus!
