//! The fixed set of icons a dialog can display.

use vstd::prelude::*;

verus! {

/// Icon flag codes as the native facility defines them. Several icon
/// names are aliases of one underlying code.
pub const ICON_STOP_CODE: u32 = 0x10;
/// Code for the question-mark icon.
pub const ICON_QUESTION_CODE: u32 = 0x20;
/// Code for the exclamation icon.
pub const ICON_EXCLAMATION_CODE: u32 = 0x30;
/// Code for the information icon.
pub const ICON_INFORMATION_CODE: u32 = 0x40;

/// Represents the set of icons available for a message dialog.
#[derive(Debug, Clone, Copy, PartialEq, Eq, Structural)]
pub enum Icon {
    /// An exclamation point in a yellow triangle.
    Exclamation,
    /// An alias for [`Icon::Exclamation`].
    Warning,
    /// The letter 'i' in a blue circle.
    Information,
    /// An alias for [`Icon::Information`].
    Asterisk,
    /// A question mark in a blue circle. The platform documentation
    /// discourages this icon and keeps its code only for backward
    /// compatibility, because a question mark does not clearly represent
    /// one kind of message and is easily confused with Help.
    Question,
    /// The letter 'x' in a red circle.
    Stop,
    /// An alias for [`Icon::Stop`].
    Error,
    /// Despite the name, an alias for [`Icon::Stop`]; it does not display
    /// a hand. This is an idiosyncrasy of the platform.
    Hand,
}

impl Icon {
    /// The numeric flag the native facility understands for this icon.
    /// The three stop-like names share one code, as do the two
    /// information-like names and the two exclamation-like names.
    pub open spec fn spec_code(self) -> u32 {
        match self {
            Icon::Exclamation | Icon::Warning => ICON_EXCLAMATION_CODE,
            Icon::Information | Icon::Asterisk => ICON_INFORMATION_CODE,
            Icon::Question => ICON_QUESTION_CODE,
            Icon::Stop | Icon::Error | Icon::Hand => ICON_STOP_CODE,
        }
    }

    /// Convert the icon into its numeric flag.
    pub fn code(self) -> (c: u32)
        ensures
            c == self.spec_code(),
    {
        match self {
            Icon::Exclamation | Icon::Warning => ICON_EXCLAMATION_CODE,
            Icon::Information | Icon::Asterisk => ICON_INFORMATION_CODE,
            Icon::Question => ICON_QUESTION_CODE,
            Icon::Stop | Icon::Error | Icon::Hand => ICON_STOP_CODE,
        }
    }
}

} // verus!
