//! The modality options available to a dialog.

use vstd::prelude::*;

verus! {

/// Flag code for an application-modal dialog (the platform default).
pub const MODALITY_APP_CODE: u32 = 0x0;
/// Flag code for a system-modal dialog.
pub const MODALITY_SYSTEM_CODE: u32 = 0x1000;
/// Flag code for a task-modal dialog.
pub const MODALITY_TASK_CODE: u32 = 0x2000;

/// Indicates the modality of the dialog box: how far input to other
/// windows is blocked while the dialog is up.
#[derive(Debug, Clone, Copy, PartialEq, Eq, Structural)]
pub enum Modality {
    /// The user must respond to the dialog before continuing work in its
    /// owner window, but can move to the windows of other threads. This
    /// is the default.
    App,
    /// Same behavior as [`Modality::App`] except that the dialog gets the
    /// topmost window style. Meant for serious, potentially damaging
    /// errors that require immediate attention.
    Task,
    /// Same behavior as [`Modality::App`] except that all top-level
    /// windows of the current thread are disabled when no owner window
    /// was provided.
    System,
}

impl Modality {
    /// The numeric flag the native facility understands for this
    /// modality.
    pub open spec fn spec_code(self) -> u32 {
        match self {
            Modality::App => MODALITY_APP_CODE,
            Modality::Task => MODALITY_TASK_CODE,
            Modality::System => MODALITY_SYSTEM_CODE,
        }
    }

    /// Convert the modality into its numeric flag.
    pub fn code(self) -> (c: u32)
        ensures
            c == self.spec_code(),
    {
        match self {
            Modality::App => MODALITY_APP_CODE,
            Modality::Task => MODALITY_TASK_CODE,
            Modality::System => MODALITY_SYSTEM_CODE,
        }
    }
}

impl Default for Modality {
    /// The default modality is application-modal.
    fn default() -> (m: Modality)
        ensures
            m == Modality::App,
    {
        Modality::App
    }
}

} // verus!
