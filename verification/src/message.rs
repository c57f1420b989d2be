//! Decoding of the host's loosely-typed window-message protocol: an integer
//! code plus two untyped machine words, turned into a closed set of typed
//! events. Decoding is total: a code outside the recognized set becomes a
//! fallback event carrying the raw triple unchanged, so a future host can
//! never crash the decoder.

use vstd::prelude::*;
use crate::geometry::Point;

verus! {

/// Base of the host's private message range.
pub const WM_USER: u32 = 1024;

/// Offset added to a command word to mark a plugin-window button press.
pub const MID_FILTER_BUTTON: u64 = 12004;

/// A single-byte virtual key code.
#[derive(Debug, Clone, Copy, PartialEq, Eq, Structural, Hash)]
pub struct KeyCode(pub u8);

/// A typed window event, decoded from one `(code, word, word)` triple the
/// host's UI loop handed over. Ephemeral: one per dispatch, never stored.
#[derive(Debug, Clone, Copy, PartialEq, Eq, Structural)]
#[non_exhaustive]
pub enum WindowMessage {
    /// Filter configuration or editing data changed.
    Update,
    /// An editing file was opened.
    FileOpen,
    /// The editing file was closed.
    FileClose,
    /// The plugin finished initializing.
    Init,
    /// The plugin is about to exit.
    Exit,
    /// Saving is about to start.
    SaveStart,
    /// Saving finished.
    SaveEnd,
    /// An import was requested.
    Import,
    /// An export was requested.
    Export,
    /// The filter was activated or deactivated.
    ChangeActive,
    /// The plugin window was shown or hidden.
    ChangeWindow,
    /// The plugin's parameters changed.
    ChangeParam,
    /// Whether a file is being edited changed.
    ChangeEdit,
    /// A plugin-window button was pressed; zero-based button index.
    Command { index: u32 },
    /// A file (extra movie, audio, ...) was appended.
    FileUpdate,
    /// Left mouse button pressed on the main window.
    MainMouseDown { coordinate: Point },
    /// Left mouse button released on the main window.
    MainMouseUp { coordinate: Point },
    /// Mouse moved over the main window.
    MainMouseMove { coordinate: Point },
    /// Key pressed in the main window.
    MainKeyDown { key_code: KeyCode },
    /// Key released in the main window.
    MainKeyUp { key_code: KeyCode },
    /// The main window moved or was resized; its raw handle word.
    MainMoveSize { window: isize },
    /// Left mouse button double-clicked on the main window.
    MainMouseDoubleClick { coordinate: Point },
    /// Right mouse button pressed on the main window.
    MainMouseRightDown { coordinate: Point },
    /// Right mouse button released on the main window.
    MainMouseRightUp { coordinate: Point },
    /// Mouse wheel scrolled on the main window; signed scroll amount.
    MainMouseWheel { amount: i16 },
    /// Context menu requested on the main window; screen coordinate.
    MainContextMenu { coordinate: Point },
    /// Any code outside the recognized set: the raw triple, unchanged.
    System { original: u32, wparam: usize, lparam: isize },
}

/// Sign extension of a 16-bit word value.
pub open spec fn sign_extended_16(w: int) -> int
    recommends
        0 <= w < 0x10000,
{
    if w >= 0x8000 {
        w - 0x10000
    } else {
        w
    }
}

/// The coordinate a mouse message carries: x in the low 16 bits of the
/// word, y in the next 16 bits, both sign extended.
pub open spec fn point_of_word(lparam: isize) -> Point {
    Point {
        x: sign_extended_16((lparam as u64) as int % 0x10000) as i32,
        y: sign_extended_16(((lparam as u64) as int / 0x10000) % 0x10000) as i32,
    }
}

/// The scroll amount a wheel message carries: bits 16..32 of the word,
/// interpreted as signed.
pub open spec fn wheel_of_word(wparam: usize) -> i16 {
    sign_extended_16((wparam as int / 0x10000) % 0x10000) as i16
}

/// The key code a key message carries: the low byte of the word.
pub open spec fn key_of_word(wparam: usize) -> KeyCode {
    KeyCode((wparam as int % 0x100) as u8)
}

/// The zero-based button index a command message carries: the word minus
/// the button offset, in wrapping 32-bit arithmetic. The host gives no
/// guarantee that the word is at least the offset, so the difference is
/// taken modulo the 32-bit range rather than trapping.
pub open spec fn command_of_word(wparam: usize) -> u32 {
    (((wparam as int) - (MID_FILTER_BUTTON as int)) % 0x1_0000_0000) as u32
}

/// What decoding a raw `(code, word, word)` triple yields, for every
/// possible triple.
pub open spec fn decoded(code: u32, wparam: usize, lparam: isize) -> WindowMessage {
    if code == WM_USER + 100 {
        WindowMessage::Update
    } else if code == WM_USER + 101 {
        WindowMessage::FileOpen
    } else if code == WM_USER + 102 {
        WindowMessage::FileClose
    } else if code == WM_USER + 103 {
        WindowMessage::Init
    } else if code == WM_USER + 104 {
        WindowMessage::Exit
    } else if code == WM_USER + 105 {
        WindowMessage::SaveStart
    } else if code == WM_USER + 106 {
        WindowMessage::SaveEnd
    } else if code == WM_USER + 107 {
        WindowMessage::Import
    } else if code == WM_USER + 108 {
        WindowMessage::Export
    } else if code == WM_USER + 109 {
        WindowMessage::ChangeActive
    } else if code == WM_USER + 110 {
        WindowMessage::ChangeWindow
    } else if code == WM_USER + 111 {
        WindowMessage::ChangeParam
    } else if code == WM_USER + 112 {
        WindowMessage::ChangeEdit
    } else if code == WM_USER + 113 {
        WindowMessage::Command { index: command_of_word(wparam) }
    } else if code == WM_USER + 114 {
        WindowMessage::FileUpdate
    } else if code == WM_USER + 120 {
        WindowMessage::MainMouseDown { coordinate: point_of_word(lparam) }
    } else if code == WM_USER + 121 {
        WindowMessage::MainMouseUp { coordinate: point_of_word(lparam) }
    } else if code == WM_USER + 122 {
        WindowMessage::MainMouseMove { coordinate: point_of_word(lparam) }
    } else if code == WM_USER + 123 {
        WindowMessage::MainKeyDown { key_code: key_of_word(wparam) }
    } else if code == WM_USER + 124 {
        WindowMessage::MainKeyUp { key_code: key_of_word(wparam) }
    } else if code == WM_USER + 125 {
        WindowMessage::MainMoveSize { window: lparam }
    } else if code == WM_USER + 126 {
        WindowMessage::MainMouseDoubleClick { coordinate: point_of_word(lparam) }
    } else if code == WM_USER + 127 {
        WindowMessage::MainMouseRightDown { coordinate: point_of_word(lparam) }
    } else if code == WM_USER + 128 {
        WindowMessage::MainMouseRightUp { coordinate: point_of_word(lparam) }
    } else if code == WM_USER + 129 {
        WindowMessage::MainMouseWheel { amount: wheel_of_word(wparam) }
    } else if code == WM_USER + 130 {
        WindowMessage::MainContextMenu { coordinate: point_of_word(lparam) }
    } else {
        WindowMessage::System { original: code, wparam, lparam }
    }
}

/// Whether a code belongs to the recognized set.
pub open spec fn recognized(code: u32) -> bool {
    WM_USER + 100 <= code <= WM_USER + 114 || WM_USER + 120 <= code <= WM_USER + 130
}

fn extract_pos(lparam: isize) -> (p: Point)
    ensures
        p == point_of_word(lparam),
{
    let v: u64 = #[verifier::truncate] (lparam as u64);
    let lo: u64 = v % 0x10000;
    let hi: u64 = (v / 0x10000) % 0x10000;
    let x: i32 = if lo >= 0x8000 {
        lo as i32 - 0x10000
    } else {
        lo as i32
    };
    let y: i32 = if hi >= 0x8000 {
        hi as i32 - 0x10000
    } else {
        hi as i32
    };
    Point { x, y }
}

impl WindowMessage {
    /// Decodes one raw message triple. Total: every 32-bit code decodes,
    /// unrecognized ones to [`WindowMessage::System`] with the triple
    /// unchanged.
    pub fn from(code: u32, wparam: usize, lparam: isize) -> (r: Self)
        ensures
            r == decoded(code, wparam, lparam),
    {
        if code == WM_USER + 100 {
            WindowMessage::Update
        } else if code == WM_USER + 101 {
            WindowMessage::FileOpen
        } else if code == WM_USER + 102 {
            WindowMessage::FileClose
        } else if code == WM_USER + 103 {
            WindowMessage::Init
        } else if code == WM_USER + 104 {
            WindowMessage::Exit
        } else if code == WM_USER + 105 {
            WindowMessage::SaveStart
        } else if code == WM_USER + 106 {
            WindowMessage::SaveEnd
        } else if code == WM_USER + 107 {
            WindowMessage::Import
        } else if code == WM_USER + 108 {
            WindowMessage::Export
        } else if code == WM_USER + 109 {
            WindowMessage::ChangeActive
        } else if code == WM_USER + 110 {
            WindowMessage::ChangeWindow
        } else if code == WM_USER + 111 {
            WindowMessage::ChangeParam
        } else if code == WM_USER + 112 {
            WindowMessage::ChangeEdit
        } else if code == WM_USER + 113 {
            WindowMessage::Command { index: command_index(wparam) }
        } else if code == WM_USER + 114 {
            WindowMessage::FileUpdate
        } else if code == WM_USER + 120 {
            WindowMessage::MainMouseDown { coordinate: extract_pos(lparam) }
        } else if code == WM_USER + 121 {
            WindowMessage::MainMouseUp { coordinate: extract_pos(lparam) }
        } else if code == WM_USER + 122 {
            WindowMessage::MainMouseMove { coordinate: extract_pos(lparam) }
        } else if code == WM_USER + 123 {
            WindowMessage::MainKeyDown { key_code: KeyCode((wparam % 0x100) as u8) }
        } else if code == WM_USER + 124 {
            WindowMessage::MainKeyUp { key_code: KeyCode((wparam % 0x100) as u8) }
        } else if code == WM_USER + 125 {
            WindowMessage::MainMoveSize { window: lparam }
        } else if code == WM_USER + 126 {
            WindowMessage::MainMouseDoubleClick { coordinate: extract_pos(lparam) }
        } else if code == WM_USER + 127 {
            WindowMessage::MainMouseRightDown { coordinate: extract_pos(lparam) }
        } else if code == WM_USER + 128 {
            WindowMessage::MainMouseRightUp { coordinate: extract_pos(lparam) }
        } else if code == WM_USER + 129 {
            WindowMessage::MainMouseWheel { amount: extract_wheel(wparam) }
        } else if code == WM_USER + 130 {
            WindowMessage::MainContextMenu { coordinate: extract_pos(lparam) }
        } else {
            WindowMessage::System { original: code, wparam, lparam }
        }
    }
}

fn extract_wheel(wparam: usize) -> (a: i16)
    ensures
        a == wheel_of_word(wparam),
{
    let hi: usize = (wparam / 0x10000) % 0x10000;
    if hi >= 0x8000 {
        (hi as i32 - 0x10000) as i16
    } else {
        hi as i16
    }
}

fn command_index(wparam: usize) -> (i: u32)
    ensures
        i == command_of_word(wparam),
{
    let w: u64 = wparam as u64;
    if w >= MID_FILTER_BUTTON {
        ((w - MID_FILTER_BUTTON) % 0x1_0000_0000) as u32
    } else {
        proof {
            let t = wparam as int - MID_FILTER_BUTTON as int;
            vstd::arithmetic::div_mod::lemma_small_mod(
                (t + 0x1_0000_0000) as nat,
                0x1_0000_0000 as nat,
            );
            assert(t % 0x1_0000_0000 == (t + 0x1_0000_0000) % 0x1_0000_0000) by (nonlinear_arith);
        }
        (w + (0x1_0000_0000 - MID_FILTER_BUTTON)) as u32
    }
}

/// An unrecognized code always decodes to the fallback event carrying the
/// original triple unchanged.
pub proof fn lemma_unrecognized_decodes_to_fallback(code: u32, wparam: usize, lparam: isize)
    requires
        !recognized(code),
    ensures
        decoded(code, wparam, lparam) == (WindowMessage::System { original: code, wparam, lparam }),
{
}

/// Re-packing the coordinate extracted from a mouse message recovers the
/// message word, up to the 32 bits the coordinate occupies.
pub proof fn lemma_mouse_word_round_trip(lparam: isize)
    ensures
        (point_of_word(lparam).x as int % 0x10000) + 0x10000 * (point_of_word(lparam).y as int
            % 0x10000) == (lparam as u64) as int % 0x1_0000_0000,
{
    let v = (lparam as u64) as int;
    let lo = v % 0x10000;
    let hi = (v / 0x10000) % 0x10000;
    vstd::arithmetic::div_mod::lemma_mod_bound(v, 0x10000);
    vstd::arithmetic::div_mod::lemma_div_pos_is_pos(v, 0x10000);
    vstd::arithmetic::div_mod::lemma_mod_bound(v / 0x10000, 0x10000);
    lemma_sign_extended_16_mod(lo);
    lemma_sign_extended_16_mod(hi);
    let vv = lparam as u64;
    assert((vv as int) % 0x10000 + 0x10000 * (((vv as int) / 0x10000) % 0x10000) == (vv as int)
        % 0x1_0000_0000) by (bit_vector);
}

/// Re-packing the wheel amount recovers bits 16..32 of the message word.
pub proof fn lemma_wheel_word_round_trip(wparam: usize)
    ensures
        wheel_of_word(wparam) as int % 0x10000 == (wparam as int / 0x10000) % 0x10000,
{
    let hi = (wparam as int / 0x10000) % 0x10000;
    vstd::arithmetic::div_mod::lemma_div_pos_is_pos(wparam as int, 0x10000);
    vstd::arithmetic::div_mod::lemma_mod_bound(wparam as int / 0x10000, 0x10000);
    lemma_sign_extended_16_mod(hi);
}

/// Re-packing the key code recovers the low byte of the message word.
pub proof fn lemma_key_word_round_trip(wparam: usize)
    ensures
        key_of_word(wparam).0 as int == wparam as int % 0x100,
{
}

/// For a command word at or above the button offset and within the 32-bit
/// host word range, adding the offset back to the decoded index recovers
/// the word exactly.
pub proof fn lemma_command_round_trip(wparam: usize)
    requires
        MID_FILTER_BUTTON <= wparam < 0x1_0000_0000,
    ensures
        command_of_word(wparam) as int + MID_FILTER_BUTTON as int == wparam as int,
{
    let t = wparam as int - MID_FILTER_BUTTON as int;
    vstd::arithmetic::div_mod::lemma_small_mod(t as nat, 0x1_0000_0000 as nat);
}

/// Sign extension loses nothing modulo the 16-bit range.
proof fn lemma_sign_extended_16_mod(w: int)
    requires
        0 <= w < 0x10000,
    ensures
        sign_extended_16(w) % 0x10000 == w,
        -0x8000 <= sign_extended_16(w) < 0x8000,
{
    if w >= 0x8000 {
        assert((w - 0x10000) % 0x10000 == w) by (nonlinear_arith)
            requires
                0x8000 <= w < 0x10000,
        ;
    } else {
        vstd::arithmetic::div_mod::lemma_small_mod(w as nat, 0x10000 as nat);
    }
}

} // verus!
