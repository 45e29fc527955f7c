//! The configuration builder: flag packing for the native backend, the
//! re-typing style change and its order independence, and the round trip
//! from a configuration through a stub backend to a typed response.

use win_dialog::shell::handle_output;
use win_dialog::style::{
    AbortRetryIgnore, CancelRetryContinue, DialogStyle, OkCancel, RetryCancel, YesNo, YesNoCancel,
    YesNoResponse,
};
use win_dialog::{Error, Icon, Modality, WinDialog};

#[test]
fn round_trip_stub_backend_always_ok() {
    // a stub backend that echoes a valid code for the configured style
    // always yields Ok, for every accepted code of every style
    for code in [6, 7] {
        assert!(<YesNo as DialogStyle>::decode(code).is_ok());
    }
    for code in [1, 2] {
        assert!(<OkCancel as DialogStyle>::decode(code).is_ok());
    }
    for code in [3, 4, 5] {
        assert!(<AbortRetryIgnore as DialogStyle>::decode(code).is_ok());
    }
    for code in [6, 7, 2] {
        assert!(<YesNoCancel as DialogStyle>::decode(code).is_ok());
    }
    for code in [4, 2] {
        assert!(<RetryCancel as DialogStyle>::decode(code).is_ok());
    }
    for code in [2, 10, 11] {
        assert!(<CancelRetryContinue as DialogStyle>::decode(code).is_ok());
    }
}

#[test]
fn yes_no_dialog_decodes_no() {
    let d = WinDialog::new(String::from("Proceed?")).with_style(YesNo);
    let _dispatched = d.popup_args();
    // backend returned code 7
    assert_eq!(handle_output::<YesNo>(b"7\r\n"), Ok(YesNoResponse::No));
}

#[test]
fn yes_no_dialog_rejects_cancel_code() {
    let d = WinDialog::new(String::from("Proceed?")).with_style(YesNo);
    let _dispatched = d.popup_args();
    // backend returned code 2, the Cancel button YesNo does not offer
    assert_eq!(
        handle_output::<YesNo>(b"2\r\n"),
        Err(Error::UnknownResponseCode(2))
    );
}

#[test]
fn with_style_is_order_independent() {
    let early = WinDialog::new(String::from("m"))
        .with_style(YesNo)
        .with_header(String::from("h"))
        .with_icon(Icon::Warning)
        .with_duration(9);
    let late = WinDialog::new(String::from("m"))
        .with_header(String::from("h"))
        .with_icon(Icon::Warning)
        .with_duration(9)
        .with_style(YesNo);
    assert_eq!(early.popup_args(), late.popup_args());
    let early_native = WinDialog::new(String::from("m"))
        .with_style(YesNo)
        .with_icon(Icon::Stop)
        .set_topmost()
        .native_params(false)
        .unwrap();
    let late_native = WinDialog::new(String::from("m"))
        .with_icon(Icon::Stop)
        .set_topmost()
        .with_style(YesNo)
        .native_params(false)
        .unwrap();
    assert_eq!(early_native.style, late_native.style);
    assert_eq!(early_native.content, late_native.content);
}

#[test]
fn native_params_packs_all_flags() {
    let params = WinDialog::new(String::from("body"))
        .with_style(AbortRetryIgnore)
        .with_icon(Icon::Warning)
        .set_modality(Modality::System)
        .set_default_desktop_only()
        .set_right_justify()
        .set_right_to_left_reading()
        .set_foreground()
        .set_topmost()
        .make_service_notification()
        .set_default_ignore()
        .native_params(false)
        .unwrap();
    let expected = 2      // Abort/Retry/Ignore layout
        | 0x30            // exclamation icon
        | 0x1000          // system modal
        | 0x20000         // default desktop only
        | 0x80000         // right justify
        | 0x100000        // right-to-left reading
        | 0x10000         // foreground
        | 0x40000         // topmost
        | 0x200000        // service notification
        | 0x200;          // third button default
    assert_eq!(params.style, expected);
    assert_eq!(params.content, b"body".to_vec());
    assert_eq!(params.header, None);
}

#[test]
fn native_params_carries_header_bytes() {
    let params = WinDialog::new(String::from("b"))
        .with_header(String::from("head"))
        .native_params(false)
        .unwrap();
    assert_eq!(params.header, Some(b"head".to_vec()));
    assert_eq!(params.style, 0);
}

#[test]
fn native_params_rejects_embedded_nul_in_content() {
    let r = WinDialog::new(String::from("a\0b")).native_params(false);
    assert_eq!(r.unwrap_err(), Error::InvalidString);
}

#[test]
fn native_params_rejects_embedded_nul_in_header() {
    let r = WinDialog::new(String::from("ok"))
        .with_header(String::from("h\0"))
        .native_params(false);
    assert_eq!(r.unwrap_err(), Error::InvalidString);
}

#[test]
fn icon_aliases_share_codes() {
    for (a, b) in [
        (Icon::Stop, Icon::Error),
        (Icon::Stop, Icon::Hand),
        (Icon::Exclamation, Icon::Warning),
        (Icon::Information, Icon::Asterisk),
    ] {
        let pa = WinDialog::new(String::from("x")).with_icon(a).native_params(false).unwrap();
        let pb = WinDialog::new(String::from("x")).with_icon(b).native_params(false).unwrap();
        assert_eq!(pa.style, pb.style);
    }
    assert_eq!(Icon::Stop.code(), 0x10);
    assert_eq!(Icon::Question.code(), 0x20);
    assert_eq!(Icon::Exclamation.code(), 0x30);
    assert_eq!(Icon::Information.code(), 0x40);
}

#[test]
fn modality_codes_pack_into_style_word() {
    let app = WinDialog::new(String::from("x")).set_modality(Modality::App);
    assert_eq!(app.native_params(false).unwrap().style, 0);
    let task = WinDialog::new(String::from("x")).set_modality(Modality::Task);
    assert_eq!(task.native_params(false).unwrap().style, 0x2000);
    let system = WinDialog::new(String::from("x")).set_modality(Modality::System);
    assert_eq!(system.native_params(false).unwrap().style, 0x1000);
}

#[test]
fn default_button_helpers_set_expected_flags() {
    let p = WinDialog::new(String::from("x"))
        .with_style(OkCancel)
        .set_default_cancel()
        .native_params(false)
        .unwrap();
    assert_eq!(p.style, 1 | 0x100);
    let p = WinDialog::new(String::from("x"))
        .with_style(YesNoCancel)
        .set_default_cancel()
        .native_params(false)
        .unwrap();
    assert_eq!(p.style, 3 | 0x200);
    let p = WinDialog::new(String::from("x"))
        .with_style(CancelRetryContinue)
        .set_default_continue()
        .native_params(false)
        .unwrap();
    assert_eq!(p.style, 6 | 0x200);
}

#[test]
fn parent_window_enables_help_button() {
    let d = WinDialog::new(String::from("x"))
        .with_style(OkCancel)
        .set_parent_window(42)
        .with_help_button();
    assert_eq!(d.owner_handle(), 42);
    let p = d.native_params().unwrap();
    assert_eq!(p.style, 1 | 0x4000);
}

#[test]
fn parent_window_clears_service_notification() {
    let p = WinDialog::new(String::from("x"))
        .make_service_notification()
        .set_parent_window(0)
        .native_params()
        .unwrap();
    assert_eq!(p.style & 0x200000, 0);
}

#[test]
fn parent_default_help_flags() {
    let p = WinDialog::new(String::from("x"))
        .with_style(AbortRetryIgnore)
        .set_parent_window(1)
        .set_default_help()
        .native_params()
        .unwrap();
    assert_eq!(p.style, 2 | 0x300);
    let p = WinDialog::new(String::from("x"))
        .with_style(YesNo)
        .set_parent_window(1)
        .set_default_no()
        .native_params()
        .unwrap();
    assert_eq!(p.style, 4 | 0x100);
}

#[test]
fn parent_with_style_keeps_handle_and_help() {
    let d = WinDialog::new(String::from("x"))
        .set_parent_window(7)
        .with_help_button()
        .with_style(RetryCancel);
    assert_eq!(d.owner_handle(), 7);
    let p = d.native_params().unwrap();
    assert_eq!(p.style, 5 | 0x4000);
}
