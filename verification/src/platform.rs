//! What a platform adapter offers, and the rule by which the Windows adapter
//! reads the input mode from the keyboard layout and the IME state.
use vstd::prelude::*;
use crate::models::LanguageMode;

verus! {

/// The capabilities that a platform adapter reports.
pub struct PlatformCapabilities {
    pub name: &'static str,
    pub supports_focus_tracking: bool,
    pub supports_input_control: bool,
    pub notes: &'static str,
}

pub struct CapabilitiesModel {
    pub name: Seq<char>,
    pub supports_focus_tracking: bool,
    pub supports_input_control: bool,
    pub notes: Seq<char>,
}

impl View for PlatformCapabilities {
    type V = CapabilitiesModel;

    open spec fn view(&self) -> CapabilitiesModel {
        CapabilitiesModel {
            name: self.name@,
            supports_focus_tracking: self.supports_focus_tracking,
            supports_input_control: self.supports_input_control,
            notes: self.notes@,
        }
    }
}

pub open spec fn unsupported_notes() -> Seq<char> {
    "The current build ships with a Windows input-controller implementation. macOS and Linux extension points are ready, but their native adapters still need to be implemented."@
}

pub open spec fn windows_notes() -> Seq<char> {
    "Uses the foreground window, process executable, and IME open status on Windows. Chinese and English switching is triggered only on application focus changes."@
}

impl PlatformCapabilities {
    /// The capabilities of the adapter for a platform without native support,
    /// named by the operating system `os_name`.
    pub fn unsupported(os_name: &'static str) -> (c: Self)
        ensures
            c@ == (CapabilitiesModel {
                name: os_name@,
                supports_focus_tracking: false,
                supports_input_control: false,
                notes: unsupported_notes(),
            }),
    {
        PlatformCapabilities {
            name: os_name,
            supports_focus_tracking: false,
            supports_input_control: false,
            notes: "The current build ships with a Windows input-controller implementation. macOS and Linux extension points are ready, but their native adapters still need to be implemented.",
        }
    }

    /// The capabilities of the Windows adapter.
    pub fn windows() -> (c: Self)
        ensures
            c@ == (CapabilitiesModel {
                name: "windows"@,
                supports_focus_tracking: true,
                supports_input_control: true,
                notes: windows_notes(),
            }),
    {
        PlatformCapabilities {
            name: "windows",
            supports_focus_tracking: true,
            supports_input_control: true,
            notes: "Uses the foreground window, process executable, and IME open status on Windows. Chinese and English switching is triggered only on application focus changes.",
        }
    }
}

/// The primary-language identifier for Chinese.
pub const PRIMARY_LANG_CHINESE: u16 = 0x04;

/// The primary language of a keyboard layout handle: the low ten bits of its
/// language identifier, which is the handle's low word.
pub open spec fn primary_language(layout: usize) -> u16 {
    ((layout & 0xffff) as u16) & 0x03ff
}

/// The input mode that a window is in: Chinese where its keyboard layout is a
/// Chinese one and its IME is open, English otherwise.
pub open spec fn mode_of_input_state(layout: usize, ime_open: bool) -> LanguageMode {
    if primary_language(layout) == PRIMARY_LANG_CHINESE && ime_open {
        LanguageMode::Chinese
    } else {
        LanguageMode::English
    }
}

pub fn language_from_input_state(layout: usize, ime_open: bool) -> (mode: LanguageMode)
    ensures
        mode == mode_of_input_state(layout, ime_open),
{
    let lang_id = (layout & 0xffff) as u16;
    let primary_lang = lang_id & 0x03ff;
    if primary_lang == PRIMARY_LANG_CHINESE && ime_open {
        LanguageMode::Chinese
    } else {
        LanguageMode::English
    }
}

/// A switch request reached the window where either the layout-change message
/// was posted or the IME status was changed; where neither, the switch is
/// reported as failed without waiting for it.
pub fn switch_request_delivered(message_posted: bool, ime_changed: bool) -> (b: bool)
    ensures
        b == (message_posted || ime_changed),
{
    message_posted || ime_changed
}

} // verus!
