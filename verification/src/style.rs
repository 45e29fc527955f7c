//! The style registry: the closed set of button layouts a dialog can
//! carry, each bound to its numeric style code and to the closed set of
//! responses its buttons can produce.
//!
//! Every style's decoder accepts a fixed table of raw codes and maps each
//! to the documented response variant; any other code is rejected with
//! [`Error::UnknownResponseCode`]. Adding a layout means adding one
//! (marker, response enum, table) triple; nothing else changes.

use vstd::prelude::*;

use crate::error::Error;

verus! {

/// Style code for [`Ok_`], the layout a new configuration starts with.
pub const STYLE_OK: u32 = 0;
/// Style code for [`OkCancel`].
pub const STYLE_OK_CANCEL: u32 = 1;
/// Style code for [`AbortRetryIgnore`].
pub const STYLE_ABORT_RETRY_IGNORE: u32 = 2;
/// Style code for [`YesNoCancel`].
pub const STYLE_YES_NO_CANCEL: u32 = 3;
/// Style code for [`YesNo`].
pub const STYLE_YES_NO: u32 = 4;
/// Style code for [`RetryCancel`].
pub const STYLE_RETRY_CANCEL: u32 = 5;
/// Style code for [`CancelRetryContinue`].
pub const STYLE_CANCEL_RETRY_CONTINUE: u32 = 6;

/// Raw code for an Ok button press.
pub const RESPONSE_OK: i32 = 1;
/// Raw code for a Cancel button press (also produced by the close box).
pub const RESPONSE_CANCEL: i32 = 2;
/// Raw code for an Abort button press.
pub const RESPONSE_ABORT: i32 = 3;
/// Raw code for a Retry button press.
pub const RESPONSE_RETRY: i32 = 4;
/// Raw code for an Ignore button press.
pub const RESPONSE_IGNORE: i32 = 5;
/// Raw code for a Yes button press.
pub const RESPONSE_YES: i32 = 6;
/// Raw code for a No button press.
pub const RESPONSE_NO: i32 = 7;
/// Raw code for the Try Again button of [`CancelRetryContinue`].
pub const RESPONSE_TRY_AGAIN: i32 = 10;
/// Raw code for the Continue button of [`CancelRetryContinue`].
pub const RESPONSE_CONTINUE: i32 = 11;

/// A button layout for the dialog, bound at compile time to the numeric
/// style code the backend understands and to the closed enumeration of
/// responses that layout can produce.
///
/// A dialog configured with one style can only ever yield a value of that
/// style's [`DialogStyle::Response`] type: responses are created solely by
/// [`DialogStyle::decode`], and the only way to change a configuration's
/// style re-types the whole configuration.
pub trait DialogStyle: Sized {
    /// The closed set of outcomes this layout can produce.
    type Response;

    /// The numeric style code the backend understands for this layout.
    spec fn spec_style_code() -> u32;

    /// Whether a raw code is in this style's accepted table.
    spec fn accepts(code: i32) -> bool;

    /// The decoding table: the response a raw code maps to, or the
    /// rejection of a code outside the table.
    spec fn spec_decode(code: i32) -> Result<Self::Response, Error>;

    /// The table is total and exact: a code decodes to a response exactly
    /// when it is in the accepted table, and every other code is rejected
    /// as [`Error::UnknownResponseCode`] carrying that code.
    proof fn lemma_decode_covers_table(code: i32)
        ensures
            Self::accepts(code) <==> Self::spec_decode(code) is Ok,
            !Self::accepts(code) ==> Self::spec_decode(code) == Err::<
                Self::Response,
                Error,
            >(Error::UnknownResponseCode(code)),
    ;

    /// Convert the style into its raw numeric style code.
    fn style_code(&self) -> (c: u32)
        ensures
            c == Self::spec_style_code(),
    ;

    /// Map an untrusted raw code to this style's response enumeration,
    /// rejecting anything outside the accepted table.
    fn decode(code: i32) -> (r: Result<Self::Response, Error>)
        ensures
            r == Self::spec_decode(code),
    ;
}

/// Any code in a style's accepted table decodes to a response, never to an
/// error: a dialog dispatched against a backend that echoes a valid code
/// for the configured style always yields `Ok`.
pub proof fn lemma_accepted_code_round_trips<T: DialogStyle>(code: i32)
    requires
        T::accepts(code),
    ensures
        T::spec_decode(code) is Ok,
{
    T::lemma_decode_covers_table(code);
}

/// A dialog with just an Ok button and a close box. The close box returns
/// the same code as the Ok button, so use this layout to inform, never to
/// offer a real choice.
#[derive(Debug, Clone, Copy, PartialEq, Eq, Structural, Default)]
pub struct Ok_;

/// The possible responses of [`Ok_`].
#[derive(Debug, Clone, Copy, PartialEq, Eq, Structural)]
pub enum OkResponse {
    /// The user acknowledged the message.
    Ok_,
}

impl OkResponse {
    /// Decode a raw code against the [`Ok_`] table.
    pub fn try_from(value: i32) -> (r: Result<OkResponse, Error>)
        ensures
            r == <Ok_ as DialogStyle>::spec_decode(value),
    {
        if value == RESPONSE_OK {
            Ok(OkResponse::Ok_)
        } else {
            Err(Error::UnknownResponseCode(value))
        }
    }
}

impl DialogStyle for Ok_ {
    type Response = OkResponse;

    open spec fn spec_style_code() -> u32 {
        STYLE_OK
    }

    open spec fn accepts(code: i32) -> bool {
        code == RESPONSE_OK
    }

    open spec fn spec_decode(code: i32) -> Result<OkResponse, Error> {
        if code == RESPONSE_OK {
            Ok(OkResponse::Ok_)
        } else {
            Err(Error::UnknownResponseCode(code))
        }
    }

    proof fn lemma_decode_covers_table(code: i32) {
    }

    fn style_code(&self) -> u32 {
        STYLE_OK
    }

    fn decode(code: i32) -> Result<OkResponse, Error> {
        OkResponse::try_from(code)
    }
}

/// A dialog that lets the user accept a proposed action or reject it. Its
/// close box returns the same code as the Cancel button.
#[derive(Debug, Clone, Copy, PartialEq, Eq, Structural, Default)]
pub struct OkCancel;

/// The possible responses of [`OkCancel`].
#[derive(Debug, Clone, Copy, PartialEq, Eq, Structural)]
pub enum OkCancelResponse {
    /// The user agreed to perform the action described by the dialog.
    Ok_,
    /// The user declined the action described by the dialog.
    Cancel,
}

impl OkCancelResponse {
    /// Decode a raw code against the [`OkCancel`] table.
    pub fn try_from(value: i32) -> (r: Result<OkCancelResponse, Error>)
        ensures
            r == <OkCancel as DialogStyle>::spec_decode(value),
    {
        if value == RESPONSE_OK {
            Ok(OkCancelResponse::Ok_)
        } else if value == RESPONSE_CANCEL {
            Ok(OkCancelResponse::Cancel)
        } else {
            Err(Error::UnknownResponseCode(value))
        }
    }
}

impl DialogStyle for OkCancel {
    type Response = OkCancelResponse;

    open spec fn spec_style_code() -> u32 {
        STYLE_OK_CANCEL
    }

    open spec fn accepts(code: i32) -> bool {
        code == RESPONSE_OK || code == RESPONSE_CANCEL
    }

    open spec fn spec_decode(code: i32) -> Result<OkCancelResponse, Error> {
        if code == RESPONSE_OK {
            Ok(OkCancelResponse::Ok_)
        } else if code == RESPONSE_CANCEL {
            Ok(OkCancelResponse::Cancel)
        } else {
            Err(Error::UnknownResponseCode(code))
        }
    }

    proof fn lemma_decode_covers_table(code: i32) {
    }

    fn style_code(&self) -> u32 {
        STYLE_OK_CANCEL
    }

    fn decode(code: i32) -> Result<OkCancelResponse, Error> {
        OkCancelResponse::try_from(code)
    }
}

/// A dialog that requests user action after an error in a sequence of
/// steps: give up the whole sequence, retry the failed step, or ignore the
/// error and go on.
#[derive(Debug, Clone, Copy, PartialEq, Eq, Structural, Default)]
pub struct AbortRetryIgnore;

/// The possible responses of [`AbortRetryIgnore`].
#[derive(Debug, Clone, Copy, PartialEq, Eq, Structural)]
pub enum AbortRetryIgnoreResponse {
    /// The user wants to give up performing the action.
    Abort,
    /// The user wants the action to be performed again.
    Retry,
    /// The user wants to ignore the error without retrying the action.
    Ignore,
}

impl AbortRetryIgnoreResponse {
    /// Decode a raw code against the [`AbortRetryIgnore`] table.
    pub fn try_from(value: i32) -> (r: Result<AbortRetryIgnoreResponse, Error>)
        ensures
            r == <AbortRetryIgnore as DialogStyle>::spec_decode(value),
    {
        if value == RESPONSE_ABORT {
            Ok(AbortRetryIgnoreResponse::Abort)
        } else if value == RESPONSE_RETRY {
            Ok(AbortRetryIgnoreResponse::Retry)
        } else if value == RESPONSE_IGNORE {
            Ok(AbortRetryIgnoreResponse::Ignore)
        } else {
            Err(Error::UnknownResponseCode(value))
        }
    }
}

impl DialogStyle for AbortRetryIgnore {
    type Response = AbortRetryIgnoreResponse;

    open spec fn spec_style_code() -> u32 {
        STYLE_ABORT_RETRY_IGNORE
    }

    open spec fn accepts(code: i32) -> bool {
        code == RESPONSE_ABORT || code == RESPONSE_RETRY || code == RESPONSE_IGNORE
    }

    open spec fn spec_decode(code: i32) -> Result<AbortRetryIgnoreResponse, Error> {
        if code == RESPONSE_ABORT {
            Ok(AbortRetryIgnoreResponse::Abort)
        } else if code == RESPONSE_RETRY {
            Ok(AbortRetryIgnoreResponse::Retry)
        } else if code == RESPONSE_IGNORE {
            Ok(AbortRetryIgnoreResponse::Ignore)
        } else {
            Err(Error::UnknownResponseCode(code))
        }
    }

    proof fn lemma_decode_covers_table(code: i32) {
    }

    fn style_code(&self) -> u32 {
        STYLE_ABORT_RETRY_IGNORE
    }

    fn decode(code: i32) -> Result<AbortRetryIgnoreResponse, Error> {
        AbortRetryIgnoreResponse::try_from(code)
    }
}

/// A dialog for input during an ongoing series of actions: accept the next
/// action, reject it, or cancel the whole process. Its close box returns
/// the same code as the Cancel button.
#[derive(Debug, Clone, Copy, PartialEq, Eq, Structural, Default)]
pub struct YesNoCancel;

/// The possible responses of [`YesNoCancel`].
#[derive(Debug, Clone, Copy, PartialEq, Eq, Structural)]
pub enum YesNoCancelResponse {
    /// The user accepts the proposed action; proceed to the next step.
    Yes,
    /// The user rejects the proposed action; continue with the next one.
    No,
    /// The user rejects the proposed action and the rest of the process.
    Cancel,
}

impl YesNoCancelResponse {
    /// Decode a raw code against the [`YesNoCancel`] table.
    pub fn try_from(value: i32) -> (r: Result<YesNoCancelResponse, Error>)
        ensures
            r == <YesNoCancel as DialogStyle>::spec_decode(value),
    {
        if value == RESPONSE_YES {
            Ok(YesNoCancelResponse::Yes)
        } else if value == RESPONSE_NO {
            Ok(YesNoCancelResponse::No)
        } else if value == RESPONSE_CANCEL {
            Ok(YesNoCancelResponse::Cancel)
        } else {
            Err(Error::UnknownResponseCode(value))
        }
    }
}

impl DialogStyle for YesNoCancel {
    type Response = YesNoCancelResponse;

    open spec fn spec_style_code() -> u32 {
        STYLE_YES_NO_CANCEL
    }

    open spec fn accepts(code: i32) -> bool {
        code == RESPONSE_YES || code == RESPONSE_NO || code == RESPONSE_CANCEL
    }

    open spec fn spec_decode(code: i32) -> Result<YesNoCancelResponse, Error> {
        if code == RESPONSE_YES {
            Ok(YesNoCancelResponse::Yes)
        } else if code == RESPONSE_NO {
            Ok(YesNoCancelResponse::No)
        } else if code == RESPONSE_CANCEL {
            Ok(YesNoCancelResponse::Cancel)
        } else {
            Err(Error::UnknownResponseCode(code))
        }
    }

    proof fn lemma_decode_covers_table(code: i32) {
    }

    fn style_code(&self) -> u32 {
        STYLE_YES_NO_CANCEL
    }

    fn decode(code: i32) -> Result<YesNoCancelResponse, Error> {
        YesNoCancelResponse::try_from(code)
    }
}

/// A dialog with only two buttons, Yes and No, for a single action that is
/// either taken or not.
#[derive(Debug, Clone, Copy, PartialEq, Eq, Structural, Default)]
pub struct YesNo;

/// The possible responses of [`YesNo`].
#[derive(Debug, Clone, Copy, PartialEq, Eq, Structural)]
pub enum YesNoResponse {
    /// The user accepts the proposed action.
    Yes,
    /// The user rejects the proposed action.
    No,
}

impl YesNoResponse {
    /// Decode a raw code against the [`YesNo`] table.
    pub fn try_from(value: i32) -> (r: Result<YesNoResponse, Error>)
        ensures
            r == <YesNo as DialogStyle>::spec_decode(value),
    {
        if value == RESPONSE_YES {
            Ok(YesNoResponse::Yes)
        } else if value == RESPONSE_NO {
            Ok(YesNoResponse::No)
        } else {
            Err(Error::UnknownResponseCode(value))
        }
    }
}

impl DialogStyle for YesNo {
    type Response = YesNoResponse;

    open spec fn spec_style_code() -> u32 {
        STYLE_YES_NO
    }

    open spec fn accepts(code: i32) -> bool {
        code == RESPONSE_YES || code == RESPONSE_NO
    }

    open spec fn spec_decode(code: i32) -> Result<YesNoResponse, Error> {
        if code == RESPONSE_YES {
            Ok(YesNoResponse::Yes)
        } else if code == RESPONSE_NO {
            Ok(YesNoResponse::No)
        } else {
            Err(Error::UnknownResponseCode(code))
        }
    }

    proof fn lemma_decode_covers_table(code: i32) {
    }

    fn style_code(&self) -> u32 {
        STYLE_YES_NO
    }

    fn decode(code: i32) -> Result<YesNoResponse, Error> {
        YesNoResponse::try_from(code)
    }
}

/// A dialog with Retry and Cancel buttons, for a single failed action that
/// may be tried again or abandoned. Its close box returns the same code as
/// the Cancel button.
#[derive(Debug, Clone, Copy, PartialEq, Eq, Structural, Default)]
pub struct RetryCancel;

/// The possible responses of [`RetryCancel`].
#[derive(Debug, Clone, Copy, PartialEq, Eq, Structural)]
pub enum RetryCancelResponse {
    /// The user wants the operation tried again.
    Retry,
    /// The user wants to abandon the operation after the failure.
    Cancel,
}

impl RetryCancelResponse {
    /// Decode a raw code against the [`RetryCancel`] table.
    pub fn try_from(value: i32) -> (r: Result<RetryCancelResponse, Error>)
        ensures
            r == <RetryCancel as DialogStyle>::spec_decode(value),
    {
        if value == RESPONSE_RETRY {
            Ok(RetryCancelResponse::Retry)
        } else if value == RESPONSE_CANCEL {
            Ok(RetryCancelResponse::Cancel)
        } else {
            Err(Error::UnknownResponseCode(value))
        }
    }
}

impl DialogStyle for RetryCancel {
    type Response = RetryCancelResponse;

    open spec fn spec_style_code() -> u32 {
        STYLE_RETRY_CANCEL
    }

    open spec fn accepts(code: i32) -> bool {
        code == RESPONSE_RETRY || code == RESPONSE_CANCEL
    }

    open spec fn spec_decode(code: i32) -> Result<RetryCancelResponse, Error> {
        if code == RESPONSE_RETRY {
            Ok(RetryCancelResponse::Retry)
        } else if code == RESPONSE_CANCEL {
            Ok(RetryCancelResponse::Cancel)
        } else {
            Err(Error::UnknownResponseCode(code))
        }
    }

    proof fn lemma_decode_covers_table(code: i32) {
    }

    fn style_code(&self) -> u32 {
        STYLE_RETRY_CANCEL
    }

    fn decode(code: i32) -> Result<RetryCancelResponse, Error> {
        RetryCancelResponse::try_from(code)
    }
}

/// A dialog with Cancel, Try Again and Continue buttons: abandon the whole
/// sequence, retry the failed action, or skip it and carry on.
#[derive(Debug, Clone, Copy, PartialEq, Eq, Structural, Default)]
pub struct CancelRetryContinue;

/// The possible responses of [`CancelRetryContinue`].
#[derive(Debug, Clone, Copy, PartialEq, Eq, Structural)]
pub enum CancelRetryContinueResponse {
    /// The user wants to abandon the sequence of actions entirely.
    Cancel,
    /// The user wants the failed action tried again.
    Retry,
    /// The user wants the next action performed despite the failure.
    Continue,
}

impl CancelRetryContinueResponse {
    /// Decode a raw code against the [`CancelRetryContinue`] table.
    pub fn try_from(value: i32) -> (r: Result<CancelRetryContinueResponse, Error>)
        ensures
            r == <CancelRetryContinue as DialogStyle>::spec_decode(value),
    {
        if value == RESPONSE_CANCEL {
            Ok(CancelRetryContinueResponse::Cancel)
        } else if value == RESPONSE_TRY_AGAIN {
            Ok(CancelRetryContinueResponse::Retry)
        } else if value == RESPONSE_CONTINUE {
            Ok(CancelRetryContinueResponse::Continue)
        } else {
            Err(Error::UnknownResponseCode(value))
        }
    }
}

impl DialogStyle for CancelRetryContinue {
    type Response = CancelRetryContinueResponse;

    open spec fn spec_style_code() -> u32 {
        STYLE_CANCEL_RETRY_CONTINUE
    }

    open spec fn accepts(code: i32) -> bool {
        code == RESPONSE_CANCEL || code == RESPONSE_TRY_AGAIN || code == RESPONSE_CONTINUE
    }

    open spec fn spec_decode(code: i32) -> Result<CancelRetryContinueResponse, Error> {
        if code == RESPONSE_CANCEL {
            Ok(CancelRetryContinueResponse::Cancel)
        } else if code == RESPONSE_TRY_AGAIN {
            Ok(CancelRetryContinueResponse::Retry)
        } else if code == RESPONSE_CONTINUE {
            Ok(CancelRetryContinueResponse::Continue)
        } else {
            Err(Error::UnknownResponseCode(code))
        }
    }

    proof fn lemma_decode_covers_table(code: i32) {
    }

    fn style_code(&self) -> u32 {
        STYLE_CANCEL_RETRY_CONTINUE
    }

    fn decode(code: i32) -> Result<CancelRetryContinueResponse, Error> {
        CancelRetryContinueResponse::try_from(code)
    }
}

} // verus!

