//! The decode tables of every style: each accepted code maps to its
//! documented variant, and every other code is rejected.

use win_dialog::style::{
    AbortRetryIgnore, AbortRetryIgnoreResponse, CancelRetryContinue, CancelRetryContinueResponse,
    DialogStyle, OkCancel, OkCancelResponse, OkResponse, Ok_, RetryCancel, RetryCancelResponse,
    YesNo, YesNoCancel, YesNoCancelResponse, YesNoResponse,
};
use win_dialog::Error;

#[test]
fn ok_table() {
    assert_eq!(<Ok_ as DialogStyle>::decode(1), Ok(OkResponse::Ok_));
    for code in -20..20 {
        if code != 1 {
            assert_eq!(
                <Ok_ as DialogStyle>::decode(code),
                Err(Error::UnknownResponseCode(code))
            );
        }
    }
}

#[test]
fn ok_cancel_table() {
    assert_eq!(<OkCancel as DialogStyle>::decode(1), Ok(OkCancelResponse::Ok_));
    assert_eq!(
        <OkCancel as DialogStyle>::decode(2),
        Ok(OkCancelResponse::Cancel)
    );
    for code in -20..20 {
        if code != 1 && code != 2 {
            assert_eq!(
                <OkCancel as DialogStyle>::decode(code),
                Err(Error::UnknownResponseCode(code))
            );
        }
    }
}

#[test]
fn abort_retry_ignore_table() {
    assert_eq!(
        <AbortRetryIgnore as DialogStyle>::decode(3),
        Ok(AbortRetryIgnoreResponse::Abort)
    );
    assert_eq!(
        <AbortRetryIgnore as DialogStyle>::decode(4),
        Ok(AbortRetryIgnoreResponse::Retry)
    );
    assert_eq!(
        <AbortRetryIgnore as DialogStyle>::decode(5),
        Ok(AbortRetryIgnoreResponse::Ignore)
    );
    for code in -20..20 {
        if !(3..=5).contains(&code) {
            assert_eq!(
                <AbortRetryIgnore as DialogStyle>::decode(code),
                Err(Error::UnknownResponseCode(code))
            );
        }
    }
}

#[test]
fn yes_no_cancel_table() {
    assert_eq!(
        <YesNoCancel as DialogStyle>::decode(6),
        Ok(YesNoCancelResponse::Yes)
    );
    assert_eq!(
        <YesNoCancel as DialogStyle>::decode(7),
        Ok(YesNoCancelResponse::No)
    );
    assert_eq!(
        <YesNoCancel as DialogStyle>::decode(2),
        Ok(YesNoCancelResponse::Cancel)
    );
    for code in -20..20 {
        if code != 6 && code != 7 && code != 2 {
            assert_eq!(
                <YesNoCancel as DialogStyle>::decode(code),
                Err(Error::UnknownResponseCode(code))
            );
        }
    }
}

#[test]
fn yes_no_table() {
    assert_eq!(<YesNo as DialogStyle>::decode(6), Ok(YesNoResponse::Yes));
    assert_eq!(<YesNo as DialogStyle>::decode(7), Ok(YesNoResponse::No));
    for code in -20..20 {
        if code != 6 && code != 7 {
            assert_eq!(
                <YesNo as DialogStyle>::decode(code),
                Err(Error::UnknownResponseCode(code))
            );
        }
    }
}

#[test]
fn retry_cancel_table() {
    assert_eq!(
        <RetryCancel as DialogStyle>::decode(4),
        Ok(RetryCancelResponse::Retry)
    );
    assert_eq!(
        <RetryCancel as DialogStyle>::decode(2),
        Ok(RetryCancelResponse::Cancel)
    );
    for code in -20..20 {
        if code != 4 && code != 2 {
            assert_eq!(
                <RetryCancel as DialogStyle>::decode(code),
                Err(Error::UnknownResponseCode(code))
            );
        }
    }
}

#[test]
fn cancel_retry_continue_table() {
    assert_eq!(
        <CancelRetryContinue as DialogStyle>::decode(2),
        Ok(CancelRetryContinueResponse::Cancel)
    );
    assert_eq!(
        <CancelRetryContinue as DialogStyle>::decode(10),
        Ok(CancelRetryContinueResponse::Retry)
    );
    assert_eq!(
        <CancelRetryContinue as DialogStyle>::decode(11),
        Ok(CancelRetryContinueResponse::Continue)
    );
    for code in -20..20 {
        if code != 2 && code != 10 && code != 11 {
            assert_eq!(
                <CancelRetryContinue as DialogStyle>::decode(code),
                Err(Error::UnknownResponseCode(code))
            );
        }
    }
}

#[test]
fn try_from_matches_decode() {
    assert_eq!(OkResponse::try_from(1), Ok(OkResponse::Ok_));
    assert_eq!(OkCancelResponse::try_from(2), Ok(OkCancelResponse::Cancel));
    assert_eq!(
        AbortRetryIgnoreResponse::try_from(4),
        Ok(AbortRetryIgnoreResponse::Retry)
    );
    assert_eq!(
        YesNoCancelResponse::try_from(2),
        Ok(YesNoCancelResponse::Cancel)
    );
    assert_eq!(YesNoResponse::try_from(6), Ok(YesNoResponse::Yes));
    assert_eq!(
        RetryCancelResponse::try_from(4),
        Ok(RetryCancelResponse::Retry)
    );
    assert_eq!(
        CancelRetryContinueResponse::try_from(11),
        Ok(CancelRetryContinueResponse::Continue)
    );
    assert_eq!(
        CancelRetryContinueResponse::try_from(4),
        Err(Error::UnknownResponseCode(4))
    );
}

#[test]
fn style_codes() {
    assert_eq!(Ok_.style_code(), 0);
    assert_eq!(OkCancel.style_code(), 1);
    assert_eq!(AbortRetryIgnore.style_code(), 2);
    assert_eq!(YesNoCancel.style_code(), 3);
    assert_eq!(YesNo.style_code(), 4);
    assert_eq!(RetryCancel.style_code(), 5);
    assert_eq!(CancelRetryContinue.style_code(), 6);
}
