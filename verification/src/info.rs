//! Plain-value descriptions of the editing session that the host reports:
//! the open file, the system build, and stream identities.

use vstd::prelude::*;
use crate::geometry::{FrameRate, Size};

verus! {

/// Identifies one source file within the editing session.
#[derive(Debug, Clone, Copy, PartialEq, Eq, Structural, Hash)]
pub struct FileId(u32);

/// Identifies one video stream within a source file.
#[derive(Debug, Clone, Copy, PartialEq, Eq, Structural, Hash)]
pub struct VideoId(u32);

/// Identifies one audio stream within a source file.
#[derive(Debug, Clone, Copy, PartialEq, Eq, Structural, Hash)]
pub struct AudioId(u32);

impl FileId {
    /// Wraps the host's identifier.
    pub fn from_raw(raw: u32) -> (r: Self)
        ensures
            r.raw() == raw,
    {
        FileId(raw)
    }

    /// The host's identifier.
    pub closed spec fn raw(self) -> u32 {
        self.0
    }

    /// The host's identifier.
    pub fn into_raw(self) -> (r: u32)
        ensures
            r == self.raw(),
    {
        self.0
    }
}

impl VideoId {
    /// Wraps the host's identifier.
    pub fn from_raw(raw: u32) -> (r: Self)
        ensures
            r.raw() == raw,
    {
        VideoId(raw)
    }

    /// The host's identifier.
    pub closed spec fn raw(self) -> u32 {
        self.0
    }

    /// The host's identifier.
    pub fn into_raw(self) -> (r: u32)
        ensures
            r == self.raw(),
    {
        self.0
    }
}

impl AudioId {
    /// Wraps the host's identifier.
    pub fn from_raw(raw: u32) -> (r: Self)
        ensures
            r.raw() == raw,
    {
        AudioId(raw)
    }

    /// The host's identifier.
    pub closed spec fn raw(self) -> u32 {
        self.0
    }

    /// The host's identifier.
    pub fn into_raw(self) -> (r: u32)
        ensures
            r == self.raw(),
    {
        self.0
    }
}

/// Raw bit set describing the open file.
#[derive(Debug, Clone, Copy, PartialEq, Eq, Structural, Hash)]
pub struct FileInfoFlag(pub i32);

/// Raw bit set describing the host build.
#[derive(Debug, Clone, Copy, PartialEq, Eq, Structural, Hash)]
pub struct SysInfoFlag(pub i32);

/// What the host reports about the file being edited.
#[derive(Debug, Clone, PartialEq, Eq, Hash)]
pub struct FileInfo {
    /// The file's flags.
    pub flags: FileInfoFlag,
    /// The file's name, if the host reported one.
    pub name: Option<String>,
    /// The picture extent.
    pub size: Size,
    /// The frame rate.
    pub frame_rate: FrameRate,
    /// How many frames the file holds.
    pub total_frames: usize,
    /// The decoder's pixel-format word.
    pub decode_format: u32,
    /// Bits per decoded pixel.
    pub decode_bits: usize,
    /// Audio sample rate.
    pub audio_rate: usize,
    /// Audio channel count.
    pub audio_channels: usize,
    /// Audio sample count.
    pub audio_samples: usize,
}

/// What the host reports about itself and the editing session.
#[derive(Debug, Clone, PartialEq, Eq)]
pub struct SysInfo {
    /// The build's flags.
    pub flags: SysInfoFlag,
    /// The host's version text.
    pub info: String,
    /// The host's build revision.
    pub build_revision: u32,
    /// The smallest editable picture extent.
    pub min_size: Size,
    /// The largest editable picture extent.
    pub max_size: Size,
    /// The extent of the host's frame memory.
    pub vram_size: Size,
    /// Bytes each sample occupies in the host's frame memory.
    pub vram_bytes_per_pixel: usize,
    /// The most frames one session may hold.
    pub max_frames: usize,
    /// The open editing file, if any.
    pub editing_file_name: Option<String>,
    /// The open project file, if any.
    pub project_file_name: Option<String>,
    /// The last exported file, if any.
    pub exported_file_name: Option<String>,
    /// The host's default font, as its raw handle word.
    pub default_font: isize,
}

/// Bytes each sample occupies in the host's frame memory, from the total
/// byte extent the host reported for a `width * height` grid.
pub fn vram_bytes_per_pixel(vram_yc_size: usize, vram_size: Size) -> (r: usize)
    requires
        vram_size.width as int * vram_size.height as int <= usize::MAX,
        vram_size.width as int * vram_size.height as int > 0,
    ensures
        r == vram_yc_size as int / (vram_size.width as int * vram_size.height as int),
{
    vram_yc_size / vram_size.area()
}

/// What the host hands the save-frame-selection callback about one frame.
#[derive(Debug, Clone, Copy, PartialEq, Eq, Structural, Hash)]
pub struct FrameInfo {
    /// The frame rate around this frame.
    pub frame_rate: usize,
    /// The frame's edit flags.
    pub edit_flag: crate::status::EditFlag,
    /// The frame's interlace mode.
    pub interlace: crate::status::FrameInterlace,
}

} // verus!
