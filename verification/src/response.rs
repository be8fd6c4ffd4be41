use vstd::prelude::*;

verus! {

/// The HTTP status of every failed request.
pub const INTERNAL_SERVER_ERROR: u16 = 500;

/// The code of the error that reports a failed Lightning payment.
pub const PAYMENT_FAILED_CODE: u16 = 999;

/// The answer to a failed request: a status and the error to send as its body.
#[derive(Debug, PartialEq, Eq)]
pub struct Response<T> {
    pub status: u16,
    pub body: T,
}

/// Why the server itself, rather than the mint, turns a request down.
#[derive(Clone, Copy, Debug, PartialEq, Eq, Structural)]
pub enum Refusal {
    /// The unit is not settled over Lightning.
    UnsupportedUnit,
    /// The payment request states no amount.
    InvoiceAmountUndefined,
    /// The payment request cannot be read, or none could be made.
    InvalidPaymentRequest,
    /// The Lightning node did not pay.
    PaymentFailed,
}

/// An error as it is reported to the client.
#[derive(Debug, PartialEq, Eq)]
pub struct ErrorResponse {
    pub code: u16,
    pub error: Option<String>,
    pub detail: Option<String>,
}

/// An [`ErrorResponse`] by its texts.
pub struct ErrorResponseView {
    pub code: u16,
    pub error: Option<Seq<char>>,
    pub detail: Option<Seq<char>>,
}

impl View for ErrorResponse {
    type V = ErrorResponseView;

    open spec fn view(&self) -> ErrorResponseView {
        ErrorResponseView {
            code: self.code,
            error: text_of(self.error),
            detail: text_of(self.detail),
        }
    }
}

/// The text of an optional string.
pub open spec fn text_of(text: Option<String>) -> Option<Seq<char>> {
    match text {
        Some(text) => Some(text@),
        None => None,
    }
}

/// The answer that reports `error`.
pub open spec fn failure<T>(error: T) -> Response<T> {
    Response { status: INTERNAL_SERVER_ERROR, body: error }
}

/// The answer to a request that one call to the mint settles: its value, or the failure that
/// reports its error.
pub open spec fn relayed<T, E>(outcome: Result<T, E>) -> Result<T, Response<E>> {
    match outcome {
        Ok(value) => Ok(value),
        Err(error) => Err(failure(error)),
    }
}

/// A result by the view of its value.
pub open spec fn viewed<T: View, E>(outcome: Result<T, E>) -> Result<T::V, E> {
    match outcome {
        Ok(value) => Ok(value@),
        Err(error) => Err(error),
    }
}

/// Answers a request that failed with `error`.
pub fn into_response<T>(error: T) -> (r: Response<T>)
    ensures
        r == failure(error),
        r.status == 500,
        r.body == error,
{
    Response { status: INTERNAL_SERVER_ERROR, body: error }
}

/// Answers a request with what the mint returned.
pub fn relay<T, E>(outcome: Result<T, E>) -> (r: Result<T, Response<E>>)
    ensures
        r == relayed(outcome),
        match outcome {
            Ok(value) => r == Ok::<T, Response<E>>(value),
            Err(error) => r matches Err(answer) && answer.status == 500 && answer.body == error,
        },
{
    match outcome {
        Ok(value) => Ok(value),
        Err(error) => Err(into_response(error)),
    }
}

/// The report of a payment that the Lightning node did not make.
pub open spec fn payment_failure() -> ErrorResponseView {
    ErrorResponseView {
        code: PAYMENT_FAILED_CODE,
        error: Some("Could not pay ln invoice"@),
        detail: None,
    }
}

impl Refusal {
    /// The report that stands for this refusal where the server words it itself; `None` where
    /// the refusal is one of the mint's own errors.
    pub fn report(&self) -> (r: Option<ErrorResponse>)
        ensures
            match r {
                Some(report) => self is PaymentFailed && report@ == payment_failure(),
                None => !(self is PaymentFailed),
            },
            r matches Some(report) ==> {
                &&& report.code == 999
                &&& report.error matches Some(error) && error@ == "Could not pay ln invoice"@
                &&& report.detail is None
            },
    {
        match self {
            Refusal::PaymentFailed => Some(
                ErrorResponse {
                    code: PAYMENT_FAILED_CODE,
                    error: Some("Could not pay ln invoice".to_owned()),
                    detail: None,
                },
            ),
            _ => None,
        }
    }
}

/// Every failure is answered with the status of a server error and with itself, so different
/// failures are answered differently.
pub proof fn law_failures_are_told_apart<T>(error: T, other: T)
    ensures
        failure(error).status == 500,
        failure(error).body == error,
        failure(error) == failure(other) <==> error == other,
{
}

/// A request succeeds exactly where the mint's call does, and otherwise is answered with the
/// status of a server error and with the mint's own error.
pub proof fn law_failed_calls_are_reported<T, E>(outcome: Result<T, E>)
    ensures
        relayed(outcome) is Ok <==> outcome is Ok,
        outcome matches Ok(value) ==> relayed(outcome) == Ok::<T, Response<E>>(value),
        outcome matches Err(error) ==> relayed(outcome) == Err::<T, Response<E>>(
            Response { status: 500, body: error },
        ),
{
}

/// An answer whose error is converted before it is sent.
pub open spec fn converted<E, W>(answer: Response<E>, wire: spec_fn(E) -> W) -> Response<W> {
    Response { status: answer.status, body: wire(answer.body) }
}

/// Whatever the conversion of errors to what is sent, to answer with an error and convert it is to
/// answer with the converted error, with the status of a server error. So errors that are
/// converted alike are answered alike.
pub proof fn law_answer_depends_on_what_is_sent<E, W>(error: E, other: E, wire: spec_fn(E) -> W)
    ensures
        converted(failure(error), wire) == failure(wire(error)),
        converted(failure(error), wire).status == 500,
        wire(error) == wire(other) ==> converted(failure(error), wire) == converted(
            failure(other),
            wire,
        ),
{
}

} // verus!
