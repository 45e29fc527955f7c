//! The dialog configuration builder.
//!
//! A configuration accumulates optional fields with a fluent API; every
//! setter consumes the receiver and returns a new value. Changing the
//! button layout with [`WinDialog::with_style`] re-types the whole
//! configuration: it returns a configuration parametrized by the new
//! style, carrying every other field over unchanged, so a configuration
//! can never pair one style with another style's response set.
//!
//! The abstract content of a configuration, minus its style, is the
//! [`DialogView`]; every setter's contract is stated as a pure update of
//! that view, and a style change is exactly the identity on it.

use vstd::prelude::*;

use crate::error::Error;
use crate::icon::Icon;
use crate::modality::Modality;
use crate::native::{
    combined_style, find_nul, has_nul, NativeParams, HELP_BUTTON_FLAG, DEFAULT_DESKTOP_ONLY_FLAG,
    FOREGROUND_FLAG, RIGHT_JUSTIFY_FLAG, RIGHT_TO_LEFT_FLAG, SERVICE_NOTIFICATION_FLAG,
    TOPMOST_FLAG,
};
use crate::shell::popup_args_spec;
use crate::text::{decimal_bytes, sanitize, utf8_bytes};
use vstd::string::StrSliceExecFns;
use crate::style::{
    AbortRetryIgnore, CancelRetryContinue, DialogStyle, OkCancel, Ok_, RetryCancel, YesNo,
    YesNoCancel,
};

verus! {

/// Flag selecting the first button as the default response.
pub const DEFAULT_BUTTON_FIRST: u32 = 0x0;
/// Flag selecting the second button as the default response.
pub const DEFAULT_BUTTON_SECOND: u32 = 0x100;
/// Flag selecting the third button as the default response.
pub const DEFAULT_BUTTON_THIRD: u32 = 0x200;
/// Flag selecting the fourth button as the default response.
pub const DEFAULT_BUTTON_FOURTH: u32 = 0x300;

/// The style-independent content of a dialog configuration: everything a
/// backend serializes except the button layout itself.
///
/// A header of `None` renders the platform's default header, while an
/// explicit empty text suppresses it; the two are distinct values here and
/// stay distinct through serialization.
pub struct DialogView {
    /// Custom header text, if any.
    pub header: Option<Seq<char>>,
    /// The body text of the dialog.
    pub content: Seq<char>,
    /// The icon to display, if any.
    pub icon: Option<Icon>,
    /// Seconds after which the shell-mediated backend auto-dismisses the
    /// dialog. Backends without timed dismissal ignore it.
    pub duration: Option<u32>,
    /// Flag selecting which button starts out selected.
    pub default_button: u32,
    /// The modality of the dialog.
    pub modality: Modality,
    /// Show only on the default desktop of the interactive window
    /// station.
    pub default_desktop_only: bool,
    /// Display text right-justified.
    pub right_justify_text: bool,
    /// Display text in right-to-left reading order.
    pub right_to_left_reading: bool,
    /// Make the dialog the foreground window.
    pub foreground: bool,
    /// Create the dialog with the topmost window style.
    pub topmost: bool,
    /// The caller is a service notifying the user of an event.
    pub is_service_notification: bool,
}

impl DialogView {
    /// The configuration a fresh dialog starts with: body text only,
    /// everything else at its default.
    pub open spec fn init(content: Seq<char>) -> DialogView {
        DialogView {
            header: None,
            content: content,
            icon: None,
            duration: None,
            default_button: DEFAULT_BUTTON_FIRST,
            modality: Modality::App,
            default_desktop_only: false,
            right_justify_text: false,
            right_to_left_reading: false,
            foreground: false,
            topmost: false,
            is_service_notification: false,
        }
    }

    /// The view with custom header text set.
    pub open spec fn with_header_text(self, header: Seq<char>) -> DialogView {
        DialogView { header: Some(header), ..self }
    }

    /// The view with an icon set.
    pub open spec fn with_icon_set(self, icon: Icon) -> DialogView {
        DialogView { icon: Some(icon), ..self }
    }

    /// The view with an auto-dismiss duration set.
    pub open spec fn with_duration_seconds(self, seconds: u32) -> DialogView {
        DialogView { duration: Some(seconds), ..self }
    }

    /// The view with a modality set.
    pub open spec fn with_modality(self, modality: Modality) -> DialogView {
        DialogView { modality: modality, ..self }
    }

    /// The view with a default-button flag set.
    pub open spec fn with_default_button(self, button: u32) -> DialogView {
        DialogView { default_button: button, ..self }
    }

    /// The view with the default-desktop-only flag raised.
    pub open spec fn with_default_desktop_only(self) -> DialogView {
        DialogView { default_desktop_only: true, ..self }
    }

    /// The view with the right-justify flag raised.
    pub open spec fn with_right_justify(self) -> DialogView {
        DialogView { right_justify_text: true, ..self }
    }

    /// The view with the right-to-left reading flag raised.
    pub open spec fn with_right_to_left_reading(self) -> DialogView {
        DialogView { right_to_left_reading: true, ..self }
    }

    /// The view with the foreground flag raised.
    pub open spec fn with_foreground(self) -> DialogView {
        DialogView { foreground: true, ..self }
    }

    /// The view with the topmost flag raised.
    pub open spec fn with_topmost(self) -> DialogView {
        DialogView { topmost: true, ..self }
    }

    /// The view with the service-notification flag raised.
    pub open spec fn with_service_notification(self) -> DialogView {
        DialogView { is_service_notification: true, ..self }
    }

    /// The view with the service-notification flag lowered. A dialog that
    /// gains an owner window must not be a service notification, so
    /// attaching a parent clears the flag.
    pub open spec fn without_service_notification(self) -> DialogView {
        DialogView { is_service_notification: false, ..self }
    }
}

/// One application of a non-style setter, as a pure value. A chain of
/// setter calls is a sequence of these, and [`apply_setters`] is its
/// effect on a [`DialogView`].
pub enum Setter {
    /// Set custom header text.
    Header(Seq<char>),
    /// Set an icon.
    Icon(Icon),
    /// Set an auto-dismiss duration.
    Duration(u32),
    /// Set the modality.
    Modality(Modality),
    /// Set the default-button flag.
    DefaultButton(u32),
    /// Raise the default-desktop-only flag.
    DefaultDesktopOnly,
    /// Raise the right-justify flag.
    RightJustify,
    /// Raise the right-to-left reading flag.
    RightToLeftReading,
    /// Raise the foreground flag.
    Foreground,
    /// Raise the topmost flag.
    Topmost,
    /// Raise the service-notification flag.
    ServiceNotification,
}

/// The effect of one setter on a view.
pub open spec fn apply_setter(v: DialogView, s: Setter) -> DialogView {
    match s {
        Setter::Header(h) => v.with_header_text(h),
        Setter::Icon(i) => v.with_icon_set(i),
        Setter::Duration(d) => v.with_duration_seconds(d),
        Setter::Modality(m) => v.with_modality(m),
        Setter::DefaultButton(b) => v.with_default_button(b),
        Setter::DefaultDesktopOnly => v.with_default_desktop_only(),
        Setter::RightJustify => v.with_right_justify(),
        Setter::RightToLeftReading => v.with_right_to_left_reading(),
        Setter::Foreground => v.with_foreground(),
        Setter::Topmost => v.with_topmost(),
        Setter::ServiceNotification => v.with_service_notification(),
    }
}

/// The effect of a chain of setters on a view, applied left to right.
pub open spec fn apply_setters(v: DialogView, ss: Seq<Setter>) -> DialogView
    decreases ss.len(),
{
    if ss.len() == 0 {
        v
    } else {
        apply_setters(apply_setter(v, ss[0]), ss.drop_first())
    }
}

/// A style change is order-independent with respect to every other
/// setter: a chain of non-style setters with one style change inserted at
/// any position `i` leaves the configuration's fields exactly as the
/// setters alone would, because a style change is the identity on the
/// view ([`WinDialog::with_style`] ensures `d@ == self@`). The serialized
/// form of the result is therefore that of the setters alone, plus the
/// new style's code.
pub proof fn lemma_with_style_order_independent(v: DialogView, ss: Seq<Setter>, i: int)
    requires
        0 <= i <= ss.len(),
    ensures
        apply_setters(apply_setters(v, ss.take(i)), ss.skip(i)) == apply_setters(v, ss),
    decreases i,
{
    if i == 0 {
        assert(ss.take(0) =~= Seq::<Setter>::empty());
        assert(ss.skip(0) =~= ss);
    } else {
        let head = ss[0];
        let v1 = apply_setter(v, head);
        let rest = ss.drop_first();
        assert(ss.take(i)[0] == head);
        assert(ss.take(i).drop_first() =~= rest.take(i - 1));
        assert(ss.skip(i) =~= rest.skip(i - 1));
        lemma_with_style_order_independent(v1, rest, i - 1);
    }
}

/// A builder for a native modal message dialog. It accumulates the texts,
/// icon, modality and flag choices, is re-typed by
/// [`WinDialog::with_style`] when the button layout changes, and is
/// consumed exactly once when the embedding application dispatches it to
/// a backend.
#[derive(Debug)]
pub struct WinDialog<T: DialogStyle> {
    /// Custom header text. `None` renders a platform default header; an
    /// explicit empty string suppresses the header.
    header: Option<String>,
    /// The body text of the dialog.
    content: String,
    /// The icon to display, if any.
    icon: Option<Icon>,
    /// The button layout of the dialog.
    style: T,
    /// Seconds after which the shell-mediated backend auto-dismisses the
    /// dialog. Backends without timed dismissal ignore it.
    duration: Option<u32>,
    /// Flag selecting which button starts out selected.
    default_button: u32,
    /// The modality of the dialog.
    modality: Modality,
    /// Show only on the default desktop of the interactive window
    /// station.
    default_desktop_only: bool,
    /// Display text right-justified.
    right_justify_text: bool,
    /// Display text in right-to-left reading order.
    right_to_left_reading: bool,
    /// Make the dialog the foreground window.
    foreground: bool,
    /// Create the dialog with the topmost window style.
    topmost: bool,
    /// The caller is a service notifying the user of an event.
    is_service_notification: bool,
}

impl<T: DialogStyle> View for WinDialog<T> {
    type V = DialogView;

    closed spec fn view(&self) -> DialogView {
        DialogView {
            header: match self.header {
                Some(h) => Some(h@),
                None => None,
            },
            content: self.content@,
            icon: self.icon,
            duration: self.duration,
            default_button: self.default_button,
            modality: self.modality,
            default_desktop_only: self.default_desktop_only,
            right_justify_text: self.right_justify_text,
            right_to_left_reading: self.right_to_left_reading,
            foreground: self.foreground,
            topmost: self.topmost,
            is_service_notification: self.is_service_notification,
        }
    }
}

impl WinDialog<Ok_> {
    /// Create a new dialog with body text only. It waits indefinitely for
    /// input, renders a default header, and shows the plain Ok-only
    /// layout until another style is chosen.
    pub fn new(content: String) -> (d: WinDialog<Ok_>)
        ensures
            d@ == DialogView::init(content@),
    {
        WinDialog {
            header: None,
            content: content,
            icon: None,
            style: Ok_,
            duration: None,
            default_button: DEFAULT_BUTTON_FIRST,
            modality: Modality::App,
            default_desktop_only: false,
            right_justify_text: false,
            right_to_left_reading: false,
            foreground: false,
            topmost: false,
            is_service_notification: false,
        }
    }
}

impl<T: DialogStyle> WinDialog<T> {
    /// Set custom header text. Passing nothing at all renders a default
    /// header; passing an empty string renders no header.
    pub fn with_header(self, header: String) -> (d: WinDialog<T>)
        ensures
            d@ == self@.with_header_text(header@),
    {
        WinDialog { header: Some(header), ..self }
    }

    /// Set an [`Icon`] for the dialog.
    pub fn with_icon(self, icon: Icon) -> (d: WinDialog<T>)
        ensures
            d@ == self@.with_icon_set(icon),
    {
        WinDialog { icon: Some(icon), ..self }
    }

    /// Have the shell-mediated backend dismiss the dialog by itself after
    /// this many seconds, yielding a distinct timed-out code. Backends
    /// without timed dismissal ignore the field; that is documented
    /// behavior, not an error.
    pub fn with_duration(self, seconds: u32) -> (d: WinDialog<T>)
        ensures
            d@ == self@.with_duration_seconds(seconds),
    {
        WinDialog { duration: Some(seconds), ..self }
    }

    /// Indicate the modality of the dialog. See [`Modality`] for the
    /// options.
    pub fn set_modality(self, modality: Modality) -> (d: WinDialog<T>)
        ensures
            d@ == self@.with_modality(modality),
    {
        WinDialog { modality: modality, ..self }
    }

    /// Show the dialog only on the default desktop of the interactive
    /// window station; if another desktop has input, the dialog does not
    /// return until the user switches to the default one.
    pub fn set_default_desktop_only(self) -> (d: WinDialog<T>)
        ensures
            d@ == self@.with_default_desktop_only(),
    {
        WinDialog { default_desktop_only: true, ..self }
    }

    /// Display the text right-justified.
    pub fn set_right_justify(self) -> (d: WinDialog<T>)
        ensures
            d@ == self@.with_right_justify(),
    {
        WinDialog { right_justify_text: true, ..self }
    }

    /// Display message and header text in right-to-left reading order on
    /// systems that support it.
    pub fn set_right_to_left_reading(self) -> (d: WinDialog<T>)
        ensures
            d@ == self@.with_right_to_left_reading(),
    {
        WinDialog { right_to_left_reading: true, ..self }
    }

    /// Make the dialog the foreground window.
    pub fn set_foreground(self) -> (d: WinDialog<T>)
        ensures
            d@ == self@.with_foreground(),
    {
        WinDialog { foreground: true, ..self }
    }

    /// Create the dialog with the topmost window style.
    pub fn set_topmost(self) -> (d: WinDialog<T>)
        ensures
            d@ == self@.with_topmost(),
    {
        WinDialog { topmost: true, ..self }
    }

    /// Mark the caller as a service notifying the user of an event: the
    /// dialog appears on the active desktop even with nobody logged on.
    /// A dialog with an owner window must not carry this flag, so
    /// [`WinDialog::set_parent_window`] clears it again.
    pub fn make_service_notification(self) -> (d: WinDialog<T>)
        ensures
            d@ == self@.with_service_notification(),
    {
        WinDialog { is_service_notification: true, ..self }
    }

    /// Choose the set of actions offered to the user. This is the only
    /// way to change a configuration's style: the result is a new
    /// configuration bound to the new style's response set, with every
    /// other field carried over unchanged — a style change never touches
    /// an unrelated field.
    pub fn with_style<N: DialogStyle>(self, style: N) -> (d: WinDialog<N>)
        ensures
            d@ == self@,
    {
        WinDialog {
            header: self.header,
            content: self.content,
            icon: self.icon,
            style: style,
            duration: self.duration,
            default_button: self.default_button,
            modality: self.modality,
            default_desktop_only: self.default_desktop_only,
            right_justify_text: self.right_justify_text,
            right_to_left_reading: self.right_to_left_reading,
            foreground: self.foreground,
            topmost: self.topmost,
            is_service_notification: self.is_service_notification,
        }
    }

    /// Attach an owner window, identified by its raw handle value. A
    /// dialog with an owner can carry an extra Help button; see
    /// [`WinDialogWithParent::with_help_button`]. Because a service
    /// notification must not have an owner, the flag is cleared here.
    pub fn set_parent_window(self, handle: isize) -> (d: WinDialogWithParent<T>)
        ensures
            d@.fields == self@.without_service_notification(),
            d@.window_handle == handle as int,
            d@.show_help_button == false,
    {
        WinDialogWithParent {
            inner: WinDialog { is_service_notification: false, ..self },
            window_handle: handle,
            show_help_button: false,
        }
    }
}

impl WinDialog<OkCancel> {
    /// Make the Cancel button the default response.
    pub fn set_default_cancel(self) -> (d: WinDialog<OkCancel>)
        ensures
            d@ == self@.with_default_button(DEFAULT_BUTTON_SECOND),
    {
        WinDialog { default_button: DEFAULT_BUTTON_SECOND, ..self }
    }
}

impl WinDialog<AbortRetryIgnore> {
    /// Make the Retry button the default response.
    pub fn set_default_retry(self) -> (d: WinDialog<AbortRetryIgnore>)
        ensures
            d@ == self@.with_default_button(DEFAULT_BUTTON_SECOND),
    {
        WinDialog { default_button: DEFAULT_BUTTON_SECOND, ..self }
    }

    /// Make the Ignore button the default response.
    pub fn set_default_ignore(self) -> (d: WinDialog<AbortRetryIgnore>)
        ensures
            d@ == self@.with_default_button(DEFAULT_BUTTON_THIRD),
    {
        WinDialog { default_button: DEFAULT_BUTTON_THIRD, ..self }
    }
}

impl WinDialog<YesNoCancel> {
    /// Make the No button the default response.
    pub fn set_default_no(self) -> (d: WinDialog<YesNoCancel>)
        ensures
            d@ == self@.with_default_button(DEFAULT_BUTTON_SECOND),
    {
        WinDialog { default_button: DEFAULT_BUTTON_SECOND, ..self }
    }

    /// Make the Cancel button the default response.
    pub fn set_default_cancel(self) -> (d: WinDialog<YesNoCancel>)
        ensures
            d@ == self@.with_default_button(DEFAULT_BUTTON_THIRD),
    {
        WinDialog { default_button: DEFAULT_BUTTON_THIRD, ..self }
    }
}

impl WinDialog<YesNo> {
    /// Make the No button the default response.
    pub fn set_default_no(self) -> (d: WinDialog<YesNo>)
        ensures
            d@ == self@.with_default_button(DEFAULT_BUTTON_SECOND),
    {
        WinDialog { default_button: DEFAULT_BUTTON_SECOND, ..self }
    }
}

impl WinDialog<RetryCancel> {
    /// Make the Cancel button the default response.
    pub fn set_default_cancel(self) -> (d: WinDialog<RetryCancel>)
        ensures
            d@ == self@.with_default_button(DEFAULT_BUTTON_SECOND),
    {
        WinDialog { default_button: DEFAULT_BUTTON_SECOND, ..self }
    }
}

impl WinDialog<CancelRetryContinue> {
    /// Make the Try Again button the default response.
    pub fn set_default_retry(self) -> (d: WinDialog<CancelRetryContinue>)
        ensures
            d@ == self@.with_default_button(DEFAULT_BUTTON_SECOND),
    {
        WinDialog { default_button: DEFAULT_BUTTON_SECOND, ..self }
    }

    /// Make the Continue button the default response.
    pub fn set_default_continue(self) -> (d: WinDialog<CancelRetryContinue>)
        ensures
            d@ == self@.with_default_button(DEFAULT_BUTTON_THIRD),
    {
        WinDialog { default_button: DEFAULT_BUTTON_THIRD, ..self }
    }
}

/// The abstract content of a dialog configuration that carries an owner
/// window: the style-independent fields, the owner's raw handle value,
/// and whether a Help button is shown.
pub struct ParentDialogView {
    /// The style-independent configuration fields.
    pub fields: DialogView,
    /// The owner window's raw handle value.
    pub window_handle: int,
    /// Whether the dialog shows a Help button.
    pub show_help_button: bool,
}

/// A message dialog with an attached owner window. Only such a dialog can
/// carry a Help button, because the Help message is sent to the owner.
#[derive(Debug)]
pub struct WinDialogWithParent<T: DialogStyle> {
    /// The inner dialog configuration.
    inner: WinDialog<T>,
    /// The owner window's raw handle value.
    window_handle: isize,
    /// Whether the dialog shows a Help button.
    show_help_button: bool,
}

impl<T: DialogStyle> View for WinDialogWithParent<T> {
    type V = ParentDialogView;

    closed spec fn view(&self) -> ParentDialogView {
        ParentDialogView {
            fields: self.inner@,
            window_handle: self.window_handle as int,
            show_help_button: self.show_help_button,
        }
    }
}

impl<T: DialogStyle> WinDialogWithParent<T> {
    /// Add a Help button to the dialog. When the user presses it (or the
    /// platform's help key), the system sends a help message to the owner
    /// window.
    pub fn with_help_button(self) -> (d: WinDialogWithParent<T>)
        ensures
            d@.fields == self@.fields,
            d@.window_handle == self@.window_handle,
            d@.show_help_button == true,
    {
        WinDialogWithParent { show_help_button: true, ..self }
    }

    /// Set custom header text. Passing nothing at all renders a default
    /// header; passing an empty string renders no header.
    pub fn with_header(self, header: String) -> (d: WinDialogWithParent<T>)
        ensures
            d@.fields == self@.fields.with_header_text(header@),
            d@.window_handle == self@.window_handle,
            d@.show_help_button == self@.show_help_button,
    {
        WinDialogWithParent { inner: self.inner.with_header(header), ..self }
    }

    /// Set an [`Icon`] for the dialog.
    pub fn with_icon(self, icon: Icon) -> (d: WinDialogWithParent<T>)
        ensures
            d@.fields == self@.fields.with_icon_set(icon),
            d@.window_handle == self@.window_handle,
            d@.show_help_button == self@.show_help_button,
    {
        WinDialogWithParent { inner: self.inner.with_icon(icon), ..self }
    }

    /// Indicate the modality of the dialog. See [`Modality`] for the
    /// options.
    pub fn set_modality(self, modality: Modality) -> (d: WinDialogWithParent<T>)
        ensures
            d@.fields == self@.fields.with_modality(modality),
            d@.window_handle == self@.window_handle,
            d@.show_help_button == self@.show_help_button,
    {
        WinDialogWithParent { inner: self.inner.set_modality(modality), ..self }
    }

    /// Show the dialog only on the default desktop of the interactive
    /// window station.
    pub fn set_default_desktop_only(self) -> (d: WinDialogWithParent<T>)
        ensures
            d@.fields == self@.fields.with_default_desktop_only(),
            d@.window_handle == self@.window_handle,
            d@.show_help_button == self@.show_help_button,
    {
        WinDialogWithParent { inner: self.inner.set_default_desktop_only(), ..self }
    }

    /// Display the text right-justified.
    pub fn set_right_justify(self) -> (d: WinDialogWithParent<T>)
        ensures
            d@.fields == self@.fields.with_right_justify(),
            d@.window_handle == self@.window_handle,
            d@.show_help_button == self@.show_help_button,
    {
        WinDialogWithParent { inner: self.inner.set_right_justify(), ..self }
    }

    /// Display message and header text in right-to-left reading order on
    /// systems that support it.
    pub fn set_right_to_left_reading(self) -> (d: WinDialogWithParent<T>)
        ensures
            d@.fields == self@.fields.with_right_to_left_reading(),
            d@.window_handle == self@.window_handle,
            d@.show_help_button == self@.show_help_button,
    {
        WinDialogWithParent { inner: self.inner.set_right_to_left_reading(), ..self }
    }

    /// Make the dialog the foreground window.
    pub fn set_foreground(self) -> (d: WinDialogWithParent<T>)
        ensures
            d@.fields == self@.fields.with_foreground(),
            d@.window_handle == self@.window_handle,
            d@.show_help_button == self@.show_help_button,
    {
        WinDialogWithParent { inner: self.inner.set_foreground(), ..self }
    }

    /// Create the dialog with the topmost window style.
    pub fn set_topmost(self) -> (d: WinDialogWithParent<T>)
        ensures
            d@.fields == self@.fields.with_topmost(),
            d@.window_handle == self@.window_handle,
            d@.show_help_button == self@.show_help_button,
    {
        WinDialogWithParent { inner: self.inner.set_topmost(), ..self }
    }

    /// Choose the set of actions offered to the user, re-typing the
    /// configuration to the new style's response set and carrying every
    /// other field over unchanged — including the owner window and the
    /// Help button choice.
    pub fn with_style<N: DialogStyle>(self, style: N) -> (d: WinDialogWithParent<N>)
        ensures
            d@.fields == self@.fields,
            d@.window_handle == self@.window_handle,
            d@.show_help_button == self@.show_help_button,
    {
        WinDialogWithParent {
            inner: self.inner.with_style(style),
            window_handle: self.window_handle,
            show_help_button: self.show_help_button,
        }
    }
}

impl WinDialogWithParent<OkCancel> {
    /// Make the Help button the default response. Has no visible effect
    /// unless [`WinDialogWithParent::with_help_button`] was called.
    pub fn set_default_help(self) -> (d: WinDialogWithParent<OkCancel>)
        ensures
            d@.fields == self@.fields.with_default_button(DEFAULT_BUTTON_THIRD),
            d@.window_handle == self@.window_handle,
            d@.show_help_button == self@.show_help_button,
    {
        WinDialogWithParent { inner: self.inner.set_default_button_flag(DEFAULT_BUTTON_THIRD), ..self }
    }

    /// Make the Cancel button the default response.
    pub fn set_default_cancel(self) -> (d: WinDialogWithParent<OkCancel>)
        ensures
            d@.fields == self@.fields.with_default_button(DEFAULT_BUTTON_SECOND),
            d@.window_handle == self@.window_handle,
            d@.show_help_button == self@.show_help_button,
    {
        WinDialogWithParent { inner: self.inner.set_default_button_flag(DEFAULT_BUTTON_SECOND), ..self }
    }
}

impl WinDialogWithParent<AbortRetryIgnore> {
    /// Make the Help button the default response. Has no visible effect
    /// unless [`WinDialogWithParent::with_help_button`] was called.
    pub fn set_default_help(self) -> (d: WinDialogWithParent<AbortRetryIgnore>)
        ensures
            d@.fields == self@.fields.with_default_button(DEFAULT_BUTTON_FOURTH),
            d@.window_handle == self@.window_handle,
            d@.show_help_button == self@.show_help_button,
    {
        WinDialogWithParent { inner: self.inner.set_default_button_flag(DEFAULT_BUTTON_FOURTH), ..self }
    }

    /// Make the Retry button the default response.
    pub fn set_default_retry(self) -> (d: WinDialogWithParent<AbortRetryIgnore>)
        ensures
            d@.fields == self@.fields.with_default_button(DEFAULT_BUTTON_SECOND),
            d@.window_handle == self@.window_handle,
            d@.show_help_button == self@.show_help_button,
    {
        WinDialogWithParent { inner: self.inner.set_default_button_flag(DEFAULT_BUTTON_SECOND), ..self }
    }

    /// Make the Ignore button the default response.
    pub fn set_default_ignore(self) -> (d: WinDialogWithParent<AbortRetryIgnore>)
        ensures
            d@.fields == self@.fields.with_default_button(DEFAULT_BUTTON_THIRD),
            d@.window_handle == self@.window_handle,
            d@.show_help_button == self@.show_help_button,
    {
        WinDialogWithParent { inner: self.inner.set_default_button_flag(DEFAULT_BUTTON_THIRD), ..self }
    }
}

impl WinDialogWithParent<YesNoCancel> {
    /// Make the Help button the default response. Has no visible effect
    /// unless [`WinDialogWithParent::with_help_button`] was called.
    pub fn set_default_help(self) -> (d: WinDialogWithParent<YesNoCancel>)
        ensures
            d@.fields == self@.fields.with_default_button(DEFAULT_BUTTON_FOURTH),
            d@.window_handle == self@.window_handle,
            d@.show_help_button == self@.show_help_button,
    {
        WinDialogWithParent { inner: self.inner.set_default_button_flag(DEFAULT_BUTTON_FOURTH), ..self }
    }

    /// Make the No button the default response.
    pub fn set_default_no(self) -> (d: WinDialogWithParent<YesNoCancel>)
        ensures
            d@.fields == self@.fields.with_default_button(DEFAULT_BUTTON_SECOND),
            d@.window_handle == self@.window_handle,
            d@.show_help_button == self@.show_help_button,
    {
        WinDialogWithParent { inner: self.inner.set_default_button_flag(DEFAULT_BUTTON_SECOND), ..self }
    }

    /// Make the Cancel button the default response.
    pub fn set_default_cancel(self) -> (d: WinDialogWithParent<YesNoCancel>)
        ensures
            d@.fields == self@.fields.with_default_button(DEFAULT_BUTTON_THIRD),
            d@.window_handle == self@.window_handle,
            d@.show_help_button == self@.show_help_button,
    {
        WinDialogWithParent { inner: self.inner.set_default_button_flag(DEFAULT_BUTTON_THIRD), ..self }
    }
}

impl WinDialogWithParent<YesNo> {
    /// Make the Help button the default response. Has no visible effect
    /// unless [`WinDialogWithParent::with_help_button`] was called.
    pub fn set_default_help(self) -> (d: WinDialogWithParent<YesNo>)
        ensures
            d@.fields == self@.fields.with_default_button(DEFAULT_BUTTON_THIRD),
            d@.window_handle == self@.window_handle,
            d@.show_help_button == self@.show_help_button,
    {
        WinDialogWithParent { inner: self.inner.set_default_button_flag(DEFAULT_BUTTON_THIRD), ..self }
    }

    /// Make the No button the default response.
    pub fn set_default_no(self) -> (d: WinDialogWithParent<YesNo>)
        ensures
            d@.fields == self@.fields.with_default_button(DEFAULT_BUTTON_SECOND),
            d@.window_handle == self@.window_handle,
            d@.show_help_button == self@.show_help_button,
    {
        WinDialogWithParent { inner: self.inner.set_default_button_flag(DEFAULT_BUTTON_SECOND), ..self }
    }
}

impl WinDialogWithParent<RetryCancel> {
    /// Make the Help button the default response. Has no visible effect
    /// unless [`WinDialogWithParent::with_help_button`] was called.
    pub fn set_default_help(self) -> (d: WinDialogWithParent<RetryCancel>)
        ensures
            d@.fields == self@.fields.with_default_button(DEFAULT_BUTTON_THIRD),
            d@.window_handle == self@.window_handle,
            d@.show_help_button == self@.show_help_button,
    {
        WinDialogWithParent { inner: self.inner.set_default_button_flag(DEFAULT_BUTTON_THIRD), ..self }
    }

    /// Make the Cancel button the default response.
    pub fn set_default_cancel(self) -> (d: WinDialogWithParent<RetryCancel>)
        ensures
            d@.fields == self@.fields.with_default_button(DEFAULT_BUTTON_SECOND),
            d@.window_handle == self@.window_handle,
            d@.show_help_button == self@.show_help_button,
    {
        WinDialogWithParent { inner: self.inner.set_default_button_flag(DEFAULT_BUTTON_SECOND), ..self }
    }
}

impl WinDialogWithParent<CancelRetryContinue> {
    /// Make the Cancel button the default response.
    pub fn set_default_cancel(self) -> (d: WinDialogWithParent<CancelRetryContinue>)
        ensures
            d@.fields == self@.fields.with_default_button(DEFAULT_BUTTON_FIRST),
            d@.window_handle == self@.window_handle,
            d@.show_help_button == self@.show_help_button,
    {
        WinDialogWithParent { inner: self.inner.set_default_button_flag(DEFAULT_BUTTON_FIRST), ..self }
    }

    /// Make the Help button the default response. Has no visible effect
    /// unless [`WinDialogWithParent::with_help_button`] was called.
    pub fn set_default_help(self) -> (d: WinDialogWithParent<CancelRetryContinue>)
        ensures
            d@.fields == self@.fields.with_default_button(DEFAULT_BUTTON_FOURTH),
            d@.window_handle == self@.window_handle,
            d@.show_help_button == self@.show_help_button,
    {
        WinDialogWithParent { inner: self.inner.set_default_button_flag(DEFAULT_BUTTON_FOURTH), ..self }
    }

    /// Make the Try Again button the default response.
    pub fn set_default_retry(self) -> (d: WinDialogWithParent<CancelRetryContinue>)
        ensures
            d@.fields == self@.fields.with_default_button(DEFAULT_BUTTON_SECOND),
            d@.window_handle == self@.window_handle,
            d@.show_help_button == self@.show_help_button,
    {
        WinDialogWithParent { inner: self.inner.set_default_button_flag(DEFAULT_BUTTON_SECOND), ..self }
    }

    /// Make the Continue button the default response.
    pub fn set_default_continue(self) -> (d: WinDialogWithParent<CancelRetryContinue>)
        ensures
            d@.fields == self@.fields.with_default_button(DEFAULT_BUTTON_THIRD),
            d@.window_handle == self@.window_handle,
            d@.show_help_button == self@.show_help_button,
    {
        WinDialogWithParent { inner: self.inner.set_default_button_flag(DEFAULT_BUTTON_THIRD), ..self }
    }
}

impl<T: DialogStyle> WinDialog<T> {
    /// Replace the default-button flag; the shared body of the per-style
    /// default-button helpers.
    fn set_default_button_flag(self, button: u32) -> (d: WinDialog<T>)
        ensures
            d@ == self@.with_default_button(button),
    {
        WinDialog { default_button: button, ..self }
    }

    /// Serialize this configuration into the positional argument list of
    /// the shell-mediated backend: sanitized content, then duration,
    /// header and style code, with trailing absent fields omitted. The
    /// embedding application joins the arguments into the interpreter
    /// command and runs it; the decisions about what is sent are all
    /// here.
    pub fn popup_args(&self) -> (args: Vec<Vec<u8>>)
        ensures
            args.deep_view() == popup_args_spec(self@, T::spec_style_code()),
    {
        let code = self.style.style_code();
        let mut args: Vec<Vec<u8>> = Vec::new();
        args.push(sanitize(self.content.as_str()));
        if code != 0 {
            let dur: Vec<u8> = match self.duration {
                Some(d) => decimal_bytes(d),
                None => Vec::new(),
            };
            args.push(dur);
            let hdr: Vec<u8> = match &self.header {
                Some(h) => sanitize(h.as_str()),
                None => Vec::new(),
            };
            args.push(hdr);
            args.push(decimal_bytes(code));
        } else if self.header.is_some() {
            let dur: Vec<u8> = match self.duration {
                Some(d) => decimal_bytes(d),
                None => Vec::new(),
            };
            args.push(dur);
            let hdr: Vec<u8> = match &self.header {
                Some(h) => sanitize(h.as_str()),
                None => Vec::new(),
            };
            args.push(hdr);
        } else if self.duration.is_some() {
            let dur: Vec<u8> = match self.duration {
                Some(d) => decimal_bytes(d),
                None => Vec::new(),
            };
            args.push(dur);
        }
        proof {
            assert(args.deep_view() =~~= popup_args_spec(self@, T::spec_style_code()));
        }
        args
    }

    /// Convert the configuration into what the native backend's one
    /// synchronous call needs: the text buffers, checked to be free of
    /// the embedded terminator they cannot carry, and the combined style
    /// word. Fails with [`Error::InvalidString`] exactly when a caller
    /// text embeds a NUL byte.
    pub fn native_params(&self, help_button: bool) -> (r: Result<NativeParams, Error>)
        ensures
            r matches Ok(p) ==> {
                &&& p.content@ == utf8_bytes(self@.content)
                &&& !has_nul(p.content@)
                &&& match self@.header {
                    Some(h) => p.header matches Some(hb) && hb@ == utf8_bytes(h) && !has_nul(hb@),
                    None => p.header is None,
                }
                &&& p.style == combined_style(self@, T::spec_style_code(), help_button)
            },
            r is Ok <==> !has_nul(utf8_bytes(self@.content)) && (self@.header matches Some(h)
                ==> !has_nul(utf8_bytes(h))),
            r is Err ==> r == Err::<NativeParams, Error>(Error::InvalidString),
    {
        let content = self.content.as_str().as_bytes_vec();
        if find_nul(&content) {
            return Err(Error::InvalidString);
        }
        let header: Option<Vec<u8>> = match &self.header {
            Some(h) => {
                let hb = h.as_str().as_bytes_vec();
                if find_nul(&hb) {
                    return Err(Error::InvalidString);
                }
                Some(hb)
            },
            None => None,
        };
        let icon_code: u32 = match self.icon {
            Some(i) => i.code(),
            None => 0,
        };
        let style: u32 = self.style.style_code() | icon_code | self.default_button
            | self.modality.code() | (if help_button {
            HELP_BUTTON_FLAG
        } else {
            0
        }) | (if self.default_desktop_only {
            DEFAULT_DESKTOP_ONLY_FLAG
        } else {
            0
        }) | (if self.right_justify_text {
            RIGHT_JUSTIFY_FLAG
        } else {
            0
        }) | (if self.right_to_left_reading {
            RIGHT_TO_LEFT_FLAG
        } else {
            0
        }) | (if self.foreground {
            FOREGROUND_FLAG
        } else {
            0
        }) | (if self.topmost {
            TOPMOST_FLAG
        } else {
            0
        }) | (if self.is_service_notification {
            SERVICE_NOTIFICATION_FLAG
        } else {
            0
        });
        Ok(NativeParams { content, header, style })
    }
}

impl<T: DialogStyle> WinDialogWithParent<T> {
    /// Convert the configuration into what the native backend's call
    /// needs, with the Help button flag taken from this dialog's choice.
    /// Fails with [`Error::InvalidString`] exactly when a caller text
    /// embeds a NUL byte.
    pub fn native_params(&self) -> (r: Result<NativeParams, Error>)
        ensures
            r matches Ok(p) ==> {
                &&& p.content@ == utf8_bytes(self@.fields.content)
                &&& !has_nul(p.content@)
                &&& match self@.fields.header {
                    Some(h) => p.header matches Some(hb) && hb@ == utf8_bytes(h) && !has_nul(hb@),
                    None => p.header is None,
                }
                &&& p.style == combined_style(
                    self@.fields,
                    T::spec_style_code(),
                    self@.show_help_button,
                )
            },
            r is Ok <==> !has_nul(utf8_bytes(self@.fields.content)) && (self@.fields.header
                matches Some(h) ==> !has_nul(utf8_bytes(h))),
            r is Err ==> r == Err::<NativeParams, Error>(Error::InvalidString),
    {
        self.inner.native_params(self.show_help_button)
    }

    /// The raw handle value of the owner window, for the embedding
    /// application to pass to the native call.
    pub fn owner_handle(&self) -> (h: isize)
        ensures
            h as int == self@.window_handle,
    {
        self.window_handle
    }
}

} // verus!
