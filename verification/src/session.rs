//! The decision half of every host-session accessor: capacity checks made
//! before anything is written into a caller's buffer, and the mapping of
//! the host's sentinel returns (zero or null means failure) into typed
//! errors. The raw foreign calls live outside this layer; they consult
//! these functions and never write into an undersized buffer.

use vstd::prelude::*;
use crate::AviUtlError;

verus! {

/// Checks a caller-supplied buffer against the size the host reported,
/// before any write: an undersized buffer is a buffer-capacity error and
/// must receive no data at all.
pub fn check_capacity(required: usize, provided: usize) -> (r: Result<(), AviUtlError>)
    ensures
        r == if provided < required {
            Err::<(), AviUtlError>(AviUtlError::BufferLimitExceed)
        } else {
            Ok::<(), AviUtlError>(())
        },
{
    if provided < required {
        Err(AviUtlError::BufferLimitExceed)
    } else {
        Ok(())
    }
}

/// Plans a picture read into a caller's byte buffer: the bytes the frame
/// needs, against the buffer's length. An undersized buffer is a
/// buffer-capacity error and must receive no data at all.
pub fn dib_frame_plan(size: crate::geometry::Size, bytes_per_pixel: usize, buf_len: usize) -> (r:
    Result<usize, AviUtlError>)
    requires
        1 <= bytes_per_pixel,
        size.width as int * size.height as int * bytes_per_pixel as int <= usize::MAX,
    ensures
        r == if buf_len < size.width as int * size.height as int * bytes_per_pixel as int {
            Err::<usize, AviUtlError>(AviUtlError::BufferLimitExceed)
        } else {
            Ok::<usize, AviUtlError>(
                (size.width as int * size.height as int * bytes_per_pixel as int) as usize,
            )
        },
{
    proof {
        vstd::arithmetic::mul::lemma_mul_nonnegative(size.width as int, size.height as int);
        vstd::arithmetic::mul::lemma_mul_nonnegative(
            size.width as int * size.height as int,
            bytes_per_pixel as int,
        );
        assert(size.width as int * size.height as int <= size.width as int * size.height as int
            * bytes_per_pixel as int) by (nonlinear_arith)
            requires
                1 <= bytes_per_pixel as int,
                0 <= size.width as int * size.height as int,
        ;
    }
    let area = size.area();
    let required = area * bytes_per_pixel;
    if buf_len < required {
        Err(AviUtlError::BufferLimitExceed)
    } else {
        Ok(required)
    }
}

/// Maps the host's answer to a capability call: zero means the host build
/// does not expose the named feature.
pub fn require_host_success(status: i32, feature: &'static str) -> (r: Result<(), AviUtlError>)
    ensures
        r == if status == 0 {
            Err::<(), AviUtlError>(AviUtlError::Unsupported(feature))
        } else {
            Ok::<(), AviUtlError>(())
        },
{
    if status == 0 {
        Err(AviUtlError::Unsupported(feature))
    } else {
        Ok(())
    }
}

/// Maps the host's answer to a frame-index call: zero means the host rejected
/// the index, typically because it no longer lies in range.
pub fn require_frame_in_range(status: i32, frame: usize) -> (r: Result<(), AviUtlError>)
    ensures
        r == if status == 0 {
            Err::<(), AviUtlError>(AviUtlError::FrameIndexOutOfRange(frame))
        } else {
            Ok::<(), AviUtlError>(())
        },
{
    if status == 0 {
        Err(AviUtlError::FrameIndexOutOfRange(frame))
    } else {
        Ok(())
    }
}

/// Maps a null-pointer answer to a frame fetch: a null pointer means the
/// host holds no frame at that index.
pub fn require_frame_pointer(is_null: bool, frame: usize) -> (r: Result<(), AviUtlError>)
    ensures
        r == if is_null {
            Err::<(), AviUtlError>(AviUtlError::FrameIndexOutOfRange(frame))
        } else {
            Ok::<(), AviUtlError>(())
        },
{
    if is_null {
        Err(AviUtlError::FrameIndexOutOfRange(frame))
    } else {
        Ok(())
    }
}

/// Maps the host's answer to a configuration change: zero means the host
/// refused the named setting.
pub fn require_config_applied(status: i32, what: &'static str) -> (r: Result<(), AviUtlError>)
    ensures
        r == if status == 0 {
            Err::<(), AviUtlError>(AviUtlError::ConfigFailure(what))
        } else {
            Ok::<(), AviUtlError>(())
        },
{
    if status == 0 {
        Err(AviUtlError::ConfigFailure(what))
    } else {
        Ok(())
    }
}

/// Maps the host's answer to a file operation: zero means the host could not
/// open or write the named file.
pub fn require_file_accepted(status: i32, what: &'static str) -> (r: Result<(), AviUtlError>)
    ensures
        r == if status == 0 {
            Err::<(), AviUtlError>(AviUtlError::File(what))
        } else {
            Ok::<(), AviUtlError>(())
        },
{
    if status == 0 {
        Err(AviUtlError::File(what))
    } else {
        Ok(())
    }
}

/// Maps the host's answer to a load: zero means the host could not load the
/// named thing.
pub fn require_load_accepted(status: i32, what: &'static str) -> (r: Result<(), AviUtlError>)
    ensures
        r == if status == 0 {
            Err::<(), AviUtlError>(AviUtlError::Load(what))
        } else {
            Ok::<(), AviUtlError>(())
        },
{
    if status == 0 {
        Err(AviUtlError::Load(what))
    } else {
        Ok(())
    }
}

/// Maps the host's answer to a call that fills a caller-prepared buffer
/// (a colorspace conversion, a clipboard transfer): zero means the host
/// could not place the data in the buffer given.
pub fn require_buffer_written(status: i32) -> (r: Result<(), AviUtlError>)
    ensures
        r == if status == 0 {
            Err::<(), AviUtlError>(AviUtlError::BufferLimitExceed)
        } else {
            Ok::<(), AviUtlError>(())
        },
{
    if status == 0 {
        Err(AviUtlError::BufferLimitExceed)
    } else {
        Ok(())
    }
}

/// Maps the host's answer to a window repaint: zero means the host declined
/// to repaint.
pub fn require_window_updated(status: i32) -> (r: Result<(), AviUtlError>)
    ensures
        r == if status == 0 {
            Err::<(), AviUtlError>(AviUtlError::FailedUpdateMainWindow)
        } else {
            Ok::<(), AviUtlError>(())
        },
{
    if status == 0 {
        Err(AviUtlError::FailedUpdateMainWindow)
    } else {
        Ok(())
    }
}

/// One end of a frame selection.
#[derive(Debug, Clone, Copy, PartialEq, Eq, Structural)]
pub enum FrameBound {
    /// The bound names a selected frame.
    Included(usize),
    /// The bound sits just outside the selection.
    Excluded(usize),
    /// No bound: the selection reaches the end.
    Unbounded,
}

/// Resolves a pair of selection bounds to the inclusive frame pair the
/// host's selection call expects, for a session of `len` frames: an
/// excluded start steps inward (except at `len` itself, which stays), an
/// excluded end steps inward saturating at zero, and a missing bound means
/// the whole range.
pub fn resolve_selected_range(start: FrameBound, end: FrameBound, len: usize) -> (r: (
    usize,
    usize,
))
    requires
        (match start {
            FrameBound::Excluded(i) => i < usize::MAX,
            _ => true,
        }),
    ensures
        r.0 == (match start {
            FrameBound::Included(i) => i as int,
            FrameBound::Excluded(i) => if i == len {
                len as int
            } else {
                i + 1
            },
            FrameBound::Unbounded => 0,
        }),
        r.1 == (match end {
            FrameBound::Included(i) => i as int,
            FrameBound::Excluded(i) => if i == 0 {
                0
            } else {
                i - 1
            },
            FrameBound::Unbounded => len as int,
        }),
{
    let s = match start {
        FrameBound::Included(i) => i,
        FrameBound::Excluded(i) => if i == len {
            len
        } else {
            i + 1
        },
        FrameBound::Unbounded => 0,
    };
    let e = match end {
        FrameBound::Included(i) => i,
        FrameBound::Excluded(i) => if i == 0 {
            0
        } else {
            i - 1
        },
        FrameBound::Unbounded => len,
    };
    (s, e)
}

} // verus!
