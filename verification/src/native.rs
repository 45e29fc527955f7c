//! Serialization for the native backend.
//!
//! The native facility takes the body and header texts as null-terminated
//! string buffers and every remaining choice — layout, icon, modality,
//! default button and the boolean options — combined by bitwise or into
//! one style word. A caller text that itself contains the NUL terminator
//! cannot be represented and is rejected as [`Error::InvalidString`](crate::error::Error::InvalidString),
//! never truncated.

use vstd::prelude::*;

use crate::dialog::DialogView;
use crate::icon::Icon;

verus! {

/// Flag adding a Help button to the dialog.
pub const HELP_BUTTON_FLAG: u32 = 0x4000;
/// Flag making the dialog the foreground window.
pub const FOREGROUND_FLAG: u32 = 0x10000;
/// Flag restricting the dialog to the default desktop of the interactive
/// window station.
pub const DEFAULT_DESKTOP_ONLY_FLAG: u32 = 0x20000;
/// Flag creating the dialog with the topmost window style.
pub const TOPMOST_FLAG: u32 = 0x40000;
/// Flag displaying the text right-justified.
pub const RIGHT_JUSTIFY_FLAG: u32 = 0x80000;
/// Flag displaying the text in right-to-left reading order.
pub const RIGHT_TO_LEFT_FLAG: u32 = 0x100000;
/// Flag marking the caller as a service notifying the user of an event.
pub const SERVICE_NOTIFICATION_FLAG: u32 = 0x200000;

/// The icon part of the style word: the icon's code, or zero when no
/// icon was chosen.
pub open spec fn icon_flag(icon: Option<Icon>) -> u32 {
    match icon {
        Some(i) => i.spec_code(),
        None => 0,
    }
}

/// The one style word the native call receives: the style code and every
/// other choice of the configuration combined by bitwise or.
pub open spec fn combined_style(v: DialogView, code: u32, help_button: bool) -> u32 {
    code | icon_flag(v.icon) | v.default_button | v.modality.spec_code() | (if help_button {
        HELP_BUTTON_FLAG
    } else {
        0
    }) | (if v.default_desktop_only {
        DEFAULT_DESKTOP_ONLY_FLAG
    } else {
        0
    }) | (if v.right_justify_text {
        RIGHT_JUSTIFY_FLAG
    } else {
        0
    }) | (if v.right_to_left_reading {
        RIGHT_TO_LEFT_FLAG
    } else {
        0
    }) | (if v.foreground {
        FOREGROUND_FLAG
    } else {
        0
    }) | (if v.topmost {
        TOPMOST_FLAG
    } else {
        0
    }) | (if v.is_service_notification {
        SERVICE_NOTIFICATION_FLAG
    } else {
        0
    })
}

/// Whether a text contains the NUL byte, which a null-terminated string
/// buffer cannot carry.
pub open spec fn has_nul(s: Seq<u8>) -> bool {
    exists|i: int| 0 <= i < s.len() && #[trigger] s[i] == 0
}

/// Search a text for an embedded NUL byte.
pub fn find_nul(bytes: &Vec<u8>) -> (found: bool)
    ensures
        found == has_nul(bytes@),
{
    let mut i: usize = 0;
    while i < bytes.len()
        invariant
            i <= bytes@.len(),
            forall|k: int| 0 <= k < i ==> #[trigger] bytes@[k] != 0,
        decreases bytes@.len() - i,
    {
        if bytes[i] == 0 {
            return true;
        }
        i = i + 1;
    }
    false
}

/// Everything the native call needs, computed and checked ahead of it:
/// the text buffers free of embedded terminators, and the combined style
/// word. The embedding application only appends the terminators and
/// makes the call.
#[derive(Debug)]
pub struct NativeParams {
    /// The body text, UTF-8 bytes without an embedded NUL.
    pub content: Vec<u8>,
    /// The header text, UTF-8 bytes without an embedded NUL; absent when
    /// the platform's default header is wanted.
    pub header: Option<Vec<u8>>,
    /// The combined style word.
    pub style: u32,
}

} // verus!
