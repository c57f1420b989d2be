//! User-adjustable parameter descriptors and the reading of their current
//! values from the host-refreshed value tables.

use vstd::prelude::*;

verus! {

/// Describes one track bar: its name, default and range.
#[derive(Debug, Clone, PartialEq, Eq, Hash)]
pub struct Track {
    /// The label shown beside the track bar.
    pub name: &'static str,
    /// The value the track starts at.
    pub default_value: i32,
    /// The smallest selectable value.
    pub min_value: i32,
    /// The largest selectable value.
    pub max_value: i32,
}

impl Default for Track {
    /// An unnamed track over `-64..=64` starting at zero.
    fn default() -> (r: Self)
        ensures
            r.default_value == 0 && r.min_value == -64 && r.max_value == 64,
    {
        Track { name: "Untitled", default_value: 0, min_value: -64, max_value: 64 }
    }
}

/// Describes one checkbox or button.
#[derive(Debug, Clone, PartialEq, Eq, Hash)]
pub struct Control {
    /// The label shown beside the control.
    pub name: &'static str,
    /// Whether the checkbox starts checked.
    pub default_checked: bool,
    /// Whether the control is a button rather than a checkbox.
    pub is_button: bool,
}

impl Default for Control {
    /// An unnamed unchecked checkbox.
    fn default() -> (r: Self)
        ensures
            r.default_checked == false && r.is_button == false,
    {
        Control { name: "Untitled", default_checked: false, is_button: false }
    }
}

/// The current value of one track bar, from the host-refreshed table;
/// nothing for an index past the table.
pub fn get_track_value(tracks: &Vec<i32>, index: usize) -> (r: Option<i32>)
    ensures
        r == if index < tracks@.len() {
            Some(tracks@[index as int])
        } else {
            Option::<i32>::None
        },
{
    if index < tracks.len() {
        Some(tracks[index])
    } else {
        None
    }
}

/// The current state of one checkbox, from the host-refreshed table (any
/// nonzero word counts as checked); nothing for an index past the table.
pub fn get_check_value(checks: &Vec<i32>, index: usize) -> (r: Option<bool>)
    ensures
        r == if index < checks@.len() {
            Some(checks@[index as int] != 0)
        } else {
            Option::<bool>::None
        },
{
    if index < checks.len() {
        Some(checks[index] != 0)
    } else {
        None
    }
}

/// Modifier-key bits of a menu shortcut.
#[derive(Debug, Clone, Copy, PartialEq, Eq, Structural, Hash)]
pub struct ShortcutKeyModifier(pub i32);

/// A menu shortcut: a key code and its modifier bits.
#[derive(Debug, Clone, Copy, PartialEq, Eq, Structural, Hash)]
pub struct ShortcutKey {
    /// The virtual key code.
    pub key_code: u8,
    /// The modifier keys that must be held.
    pub modifier: ShortcutKeyModifier,
}

impl Default for ShortcutKey {
    /// No key and no modifiers.
    fn default() -> (r: Self)
        ensures
            r.key_code == 0 && r.modifier.0 == 0,
    {
        ShortcutKey { key_code: 0, modifier: ShortcutKeyModifier(0) }
    }
}

} // verus!
