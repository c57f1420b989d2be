//! Frame status and configuration-update events, decoded from the host's
//! raw integers into closed typed forms.

use vstd::prelude::*;

verus! {

/// Bit set on an update word when a track bar changed.
pub const UPDATE_TRACK_BITS: i32 = 0x10000;

/// Bit set on an update word when a checkbox or button changed.
pub const UPDATE_CHECK_BITS: i32 = 0x20000;

/// The raw word the host hands to the parameter-update callback.
#[derive(Debug, Clone, Copy, PartialEq, Eq, Structural, Hash)]
pub struct FilterUpdateStatus(pub i32);

impl FilterUpdateStatus {
    /// Whether this word carries any bit of the other word.
    pub fn contains(self, other: Self) -> (r: bool)
        ensures
            r == (self.0 & other.0 != 0),
    {
        self.0 & other.0 != 0
    }

    /// Whether the word marks a track-bar change.
    pub fn is_track(self) -> (r: bool)
        ensures
            r == (self.0 & UPDATE_TRACK_BITS != 0),
    {
        self.contains(FilterUpdateStatus(UPDATE_TRACK_BITS))
    }

    /// Whether the word marks a checkbox change.
    pub fn is_check(self) -> (r: bool)
        ensures
            r == (self.0 & UPDATE_CHECK_BITS != 0),
    {
        self.contains(FilterUpdateStatus(UPDATE_CHECK_BITS))
    }

    /// The low byte of the word: the index of the changed item.
    pub fn lower_bits(self) -> (r: i32)
        ensures
            r == self.0 & 0xFF,
    {
        self.0 & 0xFF
    }
}

/// A typed parameter-update event.
#[derive(Debug, Clone, Copy, PartialEq, Eq, Structural)]
pub enum UpdateStatus {
    /// Every item may have changed.
    All,
    /// The track bar at the carried index changed.
    Track { index: usize },
    /// The checkbox or button at the carried index changed.
    CheckboxOrButton { index: usize },
}

impl UpdateStatus {
    /// Decodes the host's raw update word. The zero word means everything
    /// changed; otherwise the word must carry the track or the checkbox
    /// bit, with the changed index in the low byte.
    pub fn from_raw(raw: FilterUpdateStatus) -> (r: Self)
        requires
            raw.0 == 0 || raw.0 & UPDATE_TRACK_BITS != 0 || raw.0 & UPDATE_CHECK_BITS != 0,
        ensures
            r == (if raw.0 == 0 {
                UpdateStatus::All
            } else if raw.0 & UPDATE_TRACK_BITS != 0 {
                UpdateStatus::Track { index: (raw.0 & 0xFF) as usize }
            } else {
                UpdateStatus::CheckboxOrButton { index: (raw.0 & 0xFF) as usize }
            }),
    {
        if raw.0 == 0 {
            UpdateStatus::All
        } else if raw.is_track() {
            proof {
                lemma_low_byte_bounds(raw.0);
            }
            UpdateStatus::Track { index: raw.lower_bits() as usize }
        } else {
            proof {
                lemma_low_byte_bounds(raw.0);
            }
            UpdateStatus::CheckboxOrButton { index: raw.lower_bits() as usize }
        }
    }
}

proof fn lemma_low_byte_bounds(w: i32)
    ensures
        0 <= w & 0xFF < 0x100,
{
    assert(0 <= w & 0xFF < 0x100) by (bit_vector);
}

/// The interlace mode of one frame.
#[derive(Debug, Clone, Copy, PartialEq, Eq, Structural, Hash)]
pub enum FrameInterlace {
    /// Normal frame.
    Normal,
    /// Reversed frame.
    Reverse,
    /// Odd (top) field.
    Odd,
    /// Even (bottom) field.
    Even,
    /// Mixed frame.
    Mix,
    /// Automatically configured.
    Auto,
}

impl FrameInterlace {
    /// The host's integer for this mode.
    pub fn into_raw(self) -> (r: i32)
        ensures
            r == self.raw_spec(),
    {
        match self {
            FrameInterlace::Normal => 0,
            FrameInterlace::Reverse => 1,
            FrameInterlace::Odd => 2,
            FrameInterlace::Even => 3,
            FrameInterlace::Mix => 4,
            FrameInterlace::Auto => 5,
        }
    }

    /// The host's integer for this mode.
    pub open spec fn raw_spec(self) -> i32 {
        match self {
            FrameInterlace::Normal => 0,
            FrameInterlace::Reverse => 1,
            FrameInterlace::Odd => 2,
            FrameInterlace::Even => 3,
            FrameInterlace::Mix => 4,
            FrameInterlace::Auto => 5,
        }
    }

    /// Decodes the host's integer; integers outside the known set carry no
    /// mode.
    pub fn from_raw(raw: i32) -> (r: Option<Self>)
        ensures
            match r {
                Some(m) => m.raw_spec() == raw,
                None => raw < 0 || raw > 5,
            },
    {
        match raw {
            0 => Some(FrameInterlace::Normal),
            1 => Some(FrameInterlace::Reverse),
            2 => Some(FrameInterlace::Odd),
            3 => Some(FrameInterlace::Even),
            4 => Some(FrameInterlace::Mix),
            5 => Some(FrameInterlace::Auto),
            _ => None,
        }
    }
}

/// Which per-frame table a status query asks for.
#[derive(Debug, Clone, Copy, PartialEq, Eq, Structural, Hash)]
pub enum FrameStatusType {
    /// The edit flags of each frame.
    EditFlag,
    /// The interlace mode of each frame.
    Interlace,
}

impl FrameStatusType {
    /// The host's integer for this table.
    pub fn into_raw(self) -> (r: i32)
        ensures
            r == (match self {
                FrameStatusType::EditFlag => 0i32,
                FrameStatusType::Interlace => 1i32,
            }),
    {
        match self {
            FrameStatusType::EditFlag => 0,
            FrameStatusType::Interlace => 1,
        }
    }
}

/// Which kind of file a filter list is asked for.
#[derive(Debug, Clone, Copy, PartialEq, Eq, Structural, Hash)]
pub enum FileFilterType {
    /// Video files.
    Video,
    /// Audio files.
    Audio,
}

impl FileFilterType {
    /// The host's integer for this kind.
    pub fn into_raw(self) -> (r: i32)
        ensures
            r == (match self {
                FileFilterType::Video => 0i32,
                FileFilterType::Audio => 1i32,
            }),
    {
        match self {
            FileFilterType::Video => 0,
            FileFilterType::Audio => 1,
        }
    }
}

/// Per-frame edit flags, carried as the host's raw bit set.
#[derive(Debug, Clone, Copy, PartialEq, Eq, Structural, Hash)]
pub struct EditFlag(pub i32);

impl EditFlag {
    /// Whether this set carries any bit of the other set.
    pub fn contains(self, other: Self) -> (r: bool)
        ensures
            r == (self.0 & other.0 != 0),
    {
        self.0 & other.0 != 0
    }
}

/// The editable status of one frame.
#[derive(Debug, Clone, PartialEq, Eq, Structural, Hash)]
pub struct FrameStatus {
    /// Which video stream the frame comes from.
    pub video_id: usize,
    /// Which audio stream the frame comes from.
    pub audio_id: usize,
    /// The frame's interlace mode.
    pub interlace_mode: FrameInterlace,
    /// Which profile the frame belongs to.
    pub config_id: usize,
    /// Which codec configuration the frame uses.
    pub vcm_id: usize,
    /// The frame's edit flags.
    pub edit_flag: EditFlag,
}

} // verus!
