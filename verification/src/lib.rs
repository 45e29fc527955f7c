//! A verified configuration builder for native modal message dialogs.
//!
//! The library models the fixed set of button layouts a dialog can carry
//! (the styles), binds each style to the closed set of responses its
//! buttons can produce, and decodes the raw numeric code a backend hands
//! back into that response set, rejecting anything outside it.
//!
//! Everything the library computes is pure: serializing a configuration
//! for a backend, packing flag words, escaping caller text, and decoding
//! backend output are all verified functions. The calls that actually
//! display a dialog (a native call or an out-of-process interpreter) are
//! I/O and live with the embedding application, which feeds their raw
//! results back into the verified decoders here.

mod dialog;
mod error;
mod icon;
mod modality;
pub mod native;
pub mod shell;
pub mod style;
pub mod text;

pub use dialog::{
    DialogView, ParentDialogView, Setter, WinDialog, WinDialogWithParent, apply_setter,
    apply_setters, lemma_with_style_order_independent, DEFAULT_BUTTON_FIRST,
    DEFAULT_BUTTON_FOURTH, DEFAULT_BUTTON_SECOND, DEFAULT_BUTTON_THIRD,
};
pub use error::Error;
pub use icon::Icon;
pub use modality::Modality;
