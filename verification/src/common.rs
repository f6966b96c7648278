//! What crosses the boundary: the error taxonomy, the marshaler that turns a
//! foreign string handle into a path, and the result envelope.

use crate::text::{followed_by, is_wire_safe, lemma_ascii_without_nul_is_wire_safe, wire_safe};
use vstd::prelude::*;
use vstd::string::*;
use vstd::utf8::*;

verus! {

/// Why an operation failed.
///
/// The first two arise while marshaling, before any filesystem call is
/// made. The variants that carry text hold the host's own description of the
/// failure.
#[derive(Debug, PartialEq, Eq)]
pub enum FsError {
    /// The path handle was null.
    NullPointer,
    /// The bytes behind the handle are not valid UTF-8.
    InvalidEncoding,
    /// The path does not exist.
    NotFound(String),
    /// The caller lacks the privilege for the call.
    PermissionDenied(String),
    /// A rename or move between two storage volumes.
    CrossVolume(String),
    /// The structured permission interface on a platform without POSIX modes.
    UnsupportedPlatform,
    /// Any other failure of a host filesystem call.
    IoError(String),
}

/// The mathematical value of an [`FsError`].
pub enum FsErrorView {
    NullPointer,
    InvalidEncoding,
    NotFound(Seq<char>),
    PermissionDenied(Seq<char>),
    CrossVolume(Seq<char>),
    UnsupportedPlatform,
    IoError(Seq<char>),
}

impl View for FsError {
    type V = FsErrorView;

    open spec fn view(&self) -> FsErrorView {
        match self {
            FsError::NullPointer => FsErrorView::NullPointer,
            FsError::InvalidEncoding => FsErrorView::InvalidEncoding,
            FsError::NotFound(d) => FsErrorView::NotFound(d@),
            FsError::PermissionDenied(d) => FsErrorView::PermissionDenied(d@),
            FsError::CrossVolume(d) => FsErrorView::CrossVolume(d@),
            FsError::UnsupportedPlatform => FsErrorView::UnsupportedPlatform,
            FsError::IoError(d) => FsErrorView::IoError(d@),
        }
    }
}

impl FsErrorView {
    /// True for the two failures of marshaling.
    pub open spec fn is_marshaling(self) -> bool {
        self is NullPointer || self is InvalidEncoding
    }

    /// The human-readable text of the error.
    pub open spec fn description(self) -> Seq<char> {
        match self {
            FsErrorView::NullPointer => "Null pointer provided"@,
            FsErrorView::InvalidEncoding => "Invalid UTF-8 encoding"@,
            FsErrorView::UnsupportedPlatform =>
                "Permission flags are only supported on Unix systems"@,
            FsErrorView::NotFound(d) => "Operation failed: "@ + d,
            FsErrorView::PermissionDenied(d) => "Operation failed: "@ + d,
            FsErrorView::CrossVolume(d) => "Operation failed: "@ + d,
            FsErrorView::IoError(d) => "Operation failed: "@ + d,
        }
    }
}

impl FsError {
    /// The human-readable text of the error.
    pub fn describe(&self) -> (r: String)
        ensures
            r@ == self@.description(),
    {
        match self {
            FsError::NullPointer => String::from_str("Null pointer provided"),
            FsError::InvalidEncoding => String::from_str("Invalid UTF-8 encoding"),
            FsError::UnsupportedPlatform => String::from_str(
                "Permission flags are only supported on Unix systems",
            ),
            FsError::NotFound(d) => followed_by("Operation failed: ", d.as_str()),
            FsError::PermissionDenied(d) => followed_by("Operation failed: ", d.as_str()),
            FsError::CrossVolume(d) => followed_by("Operation failed: ", d.as_str()),
            FsError::IoError(d) => followed_by("Operation failed: ", d.as_str()),
        }
    }

    /// A copy of the error.
    pub fn duplicate(&self) -> (r: FsError)
        ensures
            r@ == self@,
    {
        match self {
            FsError::NullPointer => FsError::NullPointer,
            FsError::InvalidEncoding => FsError::InvalidEncoding,
            FsError::UnsupportedPlatform => FsError::UnsupportedPlatform,
            FsError::NotFound(d) => FsError::NotFound(d.clone()),
            FsError::PermissionDenied(d) => FsError::PermissionDenied(d.clone()),
            FsError::CrossVolume(d) => FsError::CrossVolume(d.clone()),
            FsError::IoError(d) => FsError::IoError(d.clone()),
        }
    }
}

/// The result of an operation of this crate.
pub type FsResult<T> = Result<T, FsError>;

/// The mathematical value of a textual outcome.
pub open spec fn outcome_view(r: FsResult<String>) -> Result<Seq<char>, FsErrorView> {
    match r {
        Ok(s) => Ok(s@),
        Err(e) => Err(e@),
    }
}

/// What a path handle marshals to: a null handle (`None`) is refused, bytes
/// that are not UTF-8 are refused, and any other bytes give the text they
/// encode, whatever it names.
pub open spec fn marshalled(handle: Option<&[u8]>) -> Result<Seq<char>, FsErrorView> {
    match handle {
        None => Err(FsErrorView::NullPointer),
        Some(bytes) => if valid_utf8(bytes@) {
            Ok(decode_utf8(bytes@))
        } else {
            Err(FsErrorView::InvalidEncoding)
        },
    }
}

/// The path behind a handle whose bytes hold no zero, as the bytes of a
/// foreign string before its terminating NUL do, is wire safe.
pub proof fn lemma_foreign_string_is_wire_safe(handle: Option<&[u8]>)
    requires
        handle is Some,
        !handle->0@.contains(0u8),
        marshalled(handle) is Ok,
    ensures
        wire_safe(marshalled(handle)->Ok_0),
{
    decode_utf8_encode_utf8(handle->0@);
}

/// Calls `core::str::from_utf8` and copies the text it accepts.
///
/// Trusted: the call accepts exactly the byte sequences that are valid UTF-8
/// and hands them back as text over the same bytes.
#[verifier::external_body]
fn decode_text(bytes: &[u8]) -> (r: Option<String>)
    ensures
        r is Some <==> valid_utf8(bytes@),
        r is Some ==> encode_utf8(r->0@) == bytes@,
{
    match core::str::from_utf8(bytes) {
        Ok(s) => Some(s.to_owned()),
        Err(_) => None,
    }
}

/// Converts a foreign string handle into an owned path.
///
/// The handle is only read. No check is made of what the path names.
pub fn c_str_to_string(handle: Option<&[u8]>) -> (r: FsResult<String>)
    ensures
        outcome_view(r) == marshalled(handle),
{
    match handle {
        None => Err(FsError::NullPointer),
        Some(bytes) => match decode_text(bytes) {
            Some(s) => {
                proof {
                    encode_utf8_decode_utf8(s@);
                }
                Ok(s)
            },
            None => Err(FsError::InvalidEncoding),
        },
    }
}

/// The success flag and message that every entry point returns.
///
/// The message is owned by the result and always fits a NUL-terminated
/// buffer; the flag is 1 for success and 0 for failure.
#[derive(Debug, PartialEq, Eq)]
pub struct OperationResult {
    success: i32,
    message: String,
}

/// The mathematical value of an [`OperationResult`].
pub struct OperationResultView {
    pub success: bool,
    pub message: Seq<char>,
}

impl View for OperationResult {
    type V = OperationResultView;

    closed spec fn view(&self) -> OperationResultView {
        OperationResultView { success: self.success == 1, message: self.message@ }
    }
}

/// The message put in place of one that holds a NUL character.
pub open spec fn fallback_message() -> Seq<char> {
    "Invalid message content"@
}

/// The message that an envelope carries for the text `msg`.
pub open spec fn envelope_text(msg: Seq<char>) -> Seq<char> {
    if wire_safe(msg) {
        msg
    } else {
        fallback_message()
    }
}

/// The fallback message itself fits a NUL-terminated buffer.
pub proof fn lemma_fallback_is_wire_safe()
    ensures
        wire_safe(fallback_message()),
{
    reveal_strlit("Invalid message content");
    lemma_ascii_without_nul_is_wire_safe("Invalid message content"@);
}

/// The message of an envelope always fits a NUL-terminated buffer, and an
/// envelope's message is left alone when it is put in an envelope again.
pub proof fn lemma_envelope_text_is_wire_safe(msg: Seq<char>)
    ensures
        wire_safe(envelope_text(msg)),
        envelope_text(envelope_text(msg)) == envelope_text(msg),
{
    lemma_fallback_is_wire_safe();
}

impl OperationResult {
    #[verifier::type_invariant]
    spec fn well_formed(&self) -> bool {
        &&& self.success == 0 || self.success == 1
        &&& wire_safe(self.message@)
    }

    fn create_message(msg: &str) -> (m: String)
        ensures
            m@ == envelope_text(msg@),
            wire_safe(m@),
    {
        proof {
            lemma_fallback_is_wire_safe();
        }
        if is_wire_safe(msg) {
            String::from_str(msg)
        } else {
            String::from_str("Invalid message content")
        }
    }

    /// A success result with the message `msg`.
    pub fn success(msg: &str) -> (r: OperationResult)
        ensures
            r@ == (OperationResultView { success: true, message: envelope_text(msg@) }),
    {
        OperationResult { success: 1, message: Self::create_message(msg) }
    }

    /// A failure result with the message `msg`.
    pub fn error(msg: &str) -> (r: OperationResult)
        ensures
            r@ == (OperationResultView { success: false, message: envelope_text(msg@) }),
    {
        OperationResult { success: 0, message: Self::create_message(msg) }
    }

    /// The envelope of a finished operation: the message on success, the
    /// description of the error on failure.
    pub fn from_outcome(outcome: &FsResult<String>) -> (r: OperationResult)
        ensures
            r@ == envelope_of(outcome_view(*outcome)),
    {
        match outcome {
            Ok(msg) => OperationResult::success(msg.as_str()),
            Err(e) => {
                let text = e.describe();
                OperationResult::error(text.as_str())
            },
        }
    }

    /// True for a success result.
    pub fn is_success(&self) -> (b: bool)
        ensures
            b == self@.success,
    {
        proof {
            use_type_invariant(self);
        }
        self.success == 1
    }

    /// The flag as it is laid out for the caller: 1 for success, 0 for
    /// failure.
    pub fn success_code(&self) -> (code: i32)
        ensures
            code == (if self@.success { 1i32 } else { 0i32 }),
    {
        proof {
            use_type_invariant(self);
        }
        self.success
    }

    /// The message, which holds no NUL character.
    pub fn message(&self) -> (m: &str)
        ensures
            m@ == self@.message,
            wire_safe(m@),
    {
        proof {
            use_type_invariant(self);
        }
        self.message.as_str()
    }
}

/// The envelope of the outcome `outcome`.
pub open spec fn envelope_of(outcome: Result<Seq<char>, FsErrorView>) -> OperationResultView {
    match outcome {
        Ok(msg) => OperationResultView { success: true, message: envelope_text(msg) },
        Err(e) => OperationResultView { success: false, message: envelope_text(e.description()) },
    }
}

/// The flag of an envelope tells exactly whether the operation succeeded.
/// Its message always fits a NUL-terminated buffer, and is the message of
/// the operation, or the description of its error, wherever that fits.
pub proof fn lemma_envelope_reflects_outcome(outcome: Result<Seq<char>, FsErrorView>)
    ensures
        envelope_of(outcome).success <==> outcome is Ok,
        wire_safe(envelope_of(outcome).message),
        outcome is Ok && wire_safe(outcome->Ok_0) ==> envelope_of(outcome).message == outcome->Ok_0,
        outcome is Err && wire_safe(outcome->Err_0.description()) ==> envelope_of(outcome).message
            == outcome->Err_0.description(),
{
    lemma_fallback_is_wire_safe();
}

/// Releases a result: takes it from the caller and gives its message back to
/// the allocator.
///
/// A result is moved into the call, so it can be released once only, and the
/// call asks nothing else of it.
pub fn free_result(result: OperationResult) {
    let _released = result;
}

} // verus!
