//! Safe, verified bridging layer for a host-driven, frame-based media
//! processing plugin interface.
//!
//! The host application owns every buffer, thread and editing session; a
//! plugin only borrows them for the duration of one callback. This crate
//! holds the pure, checkable part of that discipline: geometry and pixel
//! value types, the frame model with its split operation, the window-message
//! decoder, the multi-thread partitioning rules, fixed-point colorspace
//! conversion, and the decision logic behind every host accessor call
//! (capacity checks and failure-code mapping).

use vstd::prelude::*;

pub mod audio;
pub mod bridge;
pub mod color;
pub mod filters;
pub mod frame;
pub mod geometry;
pub mod info;
pub mod message;
pub mod params;
pub mod pixel;
pub mod proc;
pub mod session;
pub mod status;
pub mod text;

verus! {

/// Errors reported by this layer. Every host failure code is mapped to one
/// of these at the call boundary; no raw sentinel value leaks past it.
#[derive(Debug, Clone)]
pub enum AviUtlError {
    /// A caller-provided buffer is too small for the data the host reported.
    BufferLimitExceed,
    /// Loading (a file, a setting) was rejected by the host.
    Load(&'static str),
    /// Saving was rejected by the host.
    Save(&'static str),
    /// A file operation was rejected by the host.
    File(&'static str),
    /// A path string could not be handed to the host.
    InvalidPath(&'static str),
    /// The host declined to repaint its main window.
    FailedUpdateMainWindow,
    /// A capability this host build does not expose.
    Unsupported(&'static str),
    /// A string could not be represented in the host's 8-bit code page.
    Encoding,
    /// The host declined to run the multi-threaded dispatch.
    ThreadExecutionFailure,
    /// A configuration change was rejected by the host.
    ConfigFailure(&'static str),
    /// A frame index the host rejected, typically no longer in range.
    FrameIndexOutOfRange(usize),
}

impl AviUtlError {
    /// A short human-readable account of the error, with the carried
    /// detail appended where the variant holds one.
    pub fn message(&self) -> (r: String)
        ensures
            r@ == (match self {
                AviUtlError::BufferLimitExceed => "buffer limit exceeded in AviUtl"@,
                AviUtlError::Load(what) => "load error: "@ + what@,
                AviUtlError::Save(what) => "save error: "@ + what@,
                AviUtlError::File(what) => "file error: "@ + what@,
                AviUtlError::InvalidPath(what) => "invalid path: "@ + what@,
                AviUtlError::FailedUpdateMainWindow => "failed to update AviUtl main window"@,
                AviUtlError::Unsupported(what) => "unsupported feature: "@ + what@,
                AviUtlError::Encoding => "string not representable in the host code page"@,
                AviUtlError::ThreadExecutionFailure => "execution in AviUtl threads failed"@,
                AviUtlError::ConfigFailure(what) => "failed to configure "@ + what@,
                AviUtlError::FrameIndexOutOfRange(_) => "frame index out of range"@,
            }),
    {
        match self {
            AviUtlError::BufferLimitExceed => "buffer limit exceeded in AviUtl".to_owned(),
            AviUtlError::Load(what) => {
                let mut s = "load error: ".to_owned();
                s.append(what);
                s
            },
            AviUtlError::Save(what) => {
                let mut s = "save error: ".to_owned();
                s.append(what);
                s
            },
            AviUtlError::File(what) => {
                let mut s = "file error: ".to_owned();
                s.append(what);
                s
            },
            AviUtlError::InvalidPath(what) => {
                let mut s = "invalid path: ".to_owned();
                s.append(what);
                s
            },
            AviUtlError::FailedUpdateMainWindow => "failed to update AviUtl main window".to_owned(),
            AviUtlError::Unsupported(what) => {
                let mut s = "unsupported feature: ".to_owned();
                s.append(what);
                s
            },
            AviUtlError::Encoding => "string not representable in the host code page".to_owned(),
            AviUtlError::ThreadExecutionFailure => "execution in AviUtl threads failed".to_owned(),
            AviUtlError::ConfigFailure(what) => {
                let mut s = "failed to configure ".to_owned();
                s.append(what);
                s
            },
            AviUtlError::FrameIndexOutOfRange(_) => "frame index out of range".to_owned(),
        }
    }
}

/// What a closure handed to the host's thread pool must satisfy: callable
/// as `(thread_id, thread_count)` from any worker thread. Such a closure
/// must confine its writes to the row range [`bridge::thread_rows`] gives
/// its worker, must not call back into the host, and must not share
/// non-thread-safe state.
pub trait MultiThreadFn: Fn(usize, usize) -> () + Send {

}

impl<F: Fn(usize, usize) -> () + Send> MultiThreadFn for F {

}

} // verus!
