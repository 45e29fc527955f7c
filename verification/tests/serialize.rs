//! Serialization for the shell-mediated backend: sanitization, the
//! positional argument list with its omission rule, the joined command,
//! and the parsing of captured output.

use win_dialog::shell::{handle_output, join_args, popup_command};
use win_dialog::style::{Ok_, YesNo, YesNoResponse};
use win_dialog::text::{decimal_bytes, parse_raw_code, sanitize};
use win_dialog::{Error, WinDialog};

#[test]
fn sanitize_escapes_quotes_and_apostrophes() {
    let out = sanitize("it's \"quoted\"");
    assert_eq!(out, b"\"it`'s `\"quoted`\"\"".to_vec());
}

#[test]
fn sanitize_safe_string_only_gains_quotes() {
    assert_eq!(sanitize("hello"), b"\"hello\"".to_vec());
}

#[test]
fn sanitize_escapes_backtick() {
    assert_eq!(sanitize("a`b"), b"\"a``b\"".to_vec());
}

#[test]
fn sanitize_empty_string_is_quoted_empty() {
    assert_eq!(sanitize(""), b"\"\"".to_vec());
}

#[test]
fn body_only_serializes_to_one_argument() {
    let args = WinDialog::new(String::from("hello")).popup_args();
    assert_eq!(args, vec![b"\"hello\"".to_vec()]);
}

#[test]
fn body_and_duration_serialize_to_two_arguments() {
    let args = WinDialog::new(String::from("hello"))
        .with_duration(10)
        .popup_args();
    assert_eq!(args, vec![b"\"hello\"".to_vec(), b"10".to_vec()]);
}

#[test]
fn style_fills_earlier_absent_fields_with_placeholders() {
    let args = WinDialog::new(String::from("x")).with_style(YesNo).popup_args();
    assert_eq!(
        args,
        vec![b"\"x\"".to_vec(), b"".to_vec(), b"".to_vec(), b"4".to_vec()]
    );
}

#[test]
fn header_without_style_serializes_to_three_arguments() {
    let args = WinDialog::new(String::from("x"))
        .with_header(String::from("h"))
        .popup_args();
    assert_eq!(
        args,
        vec![b"\"x\"".to_vec(), b"".to_vec(), b"\"h\"".to_vec()]
    );
}

#[test]
fn explicit_empty_header_is_present_as_quoted_empty() {
    let args = WinDialog::new(String::from("x"))
        .with_header(String::new())
        .popup_args();
    assert_eq!(args, vec![b"\"x\"".to_vec(), b"".to_vec(), b"\"\"".to_vec()]);
}

#[test]
fn all_fields_serialize_in_positional_order() {
    let args = WinDialog::new(String::from("m"))
        .with_duration(5)
        .with_header(String::from("h"))
        .with_style(YesNo)
        .popup_args();
    assert_eq!(
        args,
        vec![
            b"\"m\"".to_vec(),
            b"5".to_vec(),
            b"\"h\"".to_vec(),
            b"4".to_vec()
        ]
    );
}

#[test]
fn join_is_comma_separated() {
    let args = vec![b"\"m\"".to_vec(), b"5".to_vec(), b"\"h\"".to_vec()];
    assert_eq!(join_args(&args), b"\"m\",5,\"h\"".to_vec());
}

#[test]
fn command_wraps_popup_invocation() {
    let args = WinDialog::new(String::from("hi")).with_duration(3).popup_args();
    let cmd = popup_command(&args);
    assert_eq!(
        cmd,
        b"(New-Object -ComObject Wscript.Shell).popup(\"hi\",3)".to_vec()
    );
}

#[test]
fn decimal_rendering() {
    assert_eq!(decimal_bytes(0), b"0".to_vec());
    assert_eq!(decimal_bytes(7), b"7".to_vec());
    assert_eq!(decimal_bytes(10), b"10".to_vec());
    assert_eq!(decimal_bytes(4294967295), b"4294967295".to_vec());
}

#[test]
fn parse_strips_terminator() {
    assert_eq!(parse_raw_code(b"7\r\n"), Ok(7));
    assert_eq!(parse_raw_code(b"-1\r\n"), Ok(-1));
    assert_eq!(parse_raw_code(b"11\r\n"), Ok(11));
}

#[test]
fn parse_without_terminator_reads_whole_output() {
    assert_eq!(parse_raw_code(b"7"), Ok(7));
    assert_eq!(parse_raw_code(b"007"), Ok(7));
}

#[test]
fn parse_extremes() {
    assert_eq!(parse_raw_code(b"2147483647\r\n"), Ok(2147483647));
    assert_eq!(parse_raw_code(b"-2147483648\r\n"), Ok(-2147483648));
    assert_eq!(parse_raw_code(b"2147483648\r\n"), Err(Error::MalformedCode));
    assert_eq!(parse_raw_code(b"-2147483649\r\n"), Err(Error::MalformedCode));
    assert_eq!(
        parse_raw_code(b"99999999999999999999\r\n"),
        Err(Error::MalformedCode)
    );
}

#[test]
fn parse_rejects_non_numbers() {
    assert_eq!(parse_raw_code(b"abc\r\n"), Err(Error::MalformedCode));
    assert_eq!(parse_raw_code(b""), Err(Error::MalformedCode));
    assert_eq!(parse_raw_code(b"\r\n"), Err(Error::MalformedCode));
    assert_eq!(parse_raw_code(b"-\r\n"), Err(Error::MalformedCode));
    assert_eq!(parse_raw_code(b"--1\r\n"), Err(Error::MalformedCode));
    assert_eq!(parse_raw_code(b"12a3\r\n"), Err(Error::MalformedCode));
    assert_eq!(parse_raw_code(b" 7\r\n"), Err(Error::MalformedCode));
}

#[test]
fn handle_output_decodes_valid_code() {
    assert_eq!(
        handle_output::<YesNo>(b"7\r\n"),
        Ok(YesNoResponse::No)
    );
}

#[test]
fn handle_output_rejects_foreign_code() {
    assert_eq!(
        handle_output::<YesNo>(b"2\r\n"),
        Err(Error::UnknownResponseCode(2))
    );
}

#[test]
fn handle_output_rejects_malformed_text() {
    assert_eq!(
        handle_output::<Ok_>(b"abc\r\n"),
        Err(Error::MalformedCode)
    );
}
