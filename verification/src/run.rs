//! Whole requests: the calls that a request makes, one after the other, and how it ends.
use vstd::prelude::*;

use crate::melt::{PaymentOrderView, SettlementView, StoredQuote};
use crate::melt_quote::MeltQuoteOrderView;
use crate::mint_quote::{InvoiceOrderView, MintQuoteOrderView};
use crate::response::{Refusal, Response};

verus! {

/// A call that a request makes to the mint or to the Lightning node.
pub enum Call<D> {
    /// The Lightning node makes an invoice.
    CreateInvoice(InvoiceOrderView),
    /// The Lightning node pays an invoice.
    PayInvoice(PaymentOrderView),
    /// The mint records a mint quote.
    NewMintQuote(MintQuoteOrderView),
    /// The mint records a melt quote.
    NewMeltQuote(MeltQuoteOrderView),
    /// The mint verifies a melt request.
    VerifyMelt,
    /// The mint looks for its own quote for a payment request.
    FindOwnQuote(Seq<char>),
    /// The mint stores one of its own quotes.
    StoreQuote(StoredQuote<D>),
    /// The mint spends the ecash of a melt.
    ProcessMelt(SettlementView),
}

/// Whether a call is to the Lightning node.
pub open spec fn is_to_lightning<D>(call: Call<D>) -> bool {
    call is CreateInvoice || call is PayInvoice
}

/// Why a request fails: the server turns it down, or the mint does.
pub enum Failure<E> {
    Refused(Refusal),
    Mint(E),
}

/// A whole request: the calls that it makes, in order, and how it is answered.
pub struct Run<D, R, E> {
    pub calls: Seq<Call<D>>,
    pub answer: Result<R, Response<Failure<E>>>,
}

/// The answer to a request that the server turns down.
pub open spec fn refused<R, E>(answer: Response<Refusal>) -> Result<R, Response<Failure<E>>> {
    Err(crate::response::converted(answer, |refusal: Refusal| Failure::Refused(refusal)))
}

/// The answer to a request whose last call to the mint has this outcome.
pub open spec fn answered<R, E>(outcome: Result<R, E>) -> Result<R, Response<Failure<E>>> {
    match crate::response::relayed(outcome) {
        Ok(value) => Ok(value),
        Err(answer) => Err(crate::response::converted(answer, |error: E| Failure::Mint(error))),
    }
}

/// The answer with the status of a server error and this failure.
pub open spec fn failed<R, E>(failure: Failure<E>) -> Result<R, Response<Failure<E>>> {
    Err(Response { status: 500, body: failure })
}

/// The answer with what the mint's last call gave: its value, or the status of a server error and
/// its error.
pub open spec fn given<R, E>(outcome: Result<R, E>) -> Result<R, Response<Failure<E>>> {
    match outcome {
        Ok(value) => Ok(value),
        Err(error) => failed(Failure::Mint(error)),
    }
}

/// A request that the server turns down is answered with the status that it is turned down with
/// and the reason. A request that the mint is left to decide is answered with the mint's value
/// where it gives one, else with the status of a server error and the mint's error.
pub proof fn law_each_failure_is_answered<R, E>(answer: Response<Refusal>, outcome: Result<R, E>)
    ensures
        refused::<R, E>(answer) == Err::<R, Response<Failure<E>>>(
            Response { status: answer.status, body: Failure::Refused(answer.body) },
        ),
        outcome matches Ok(value) ==> answered(outcome) == Ok::<R, Response<Failure<E>>>(value),
        outcome matches Err(error) ==> answered(outcome) == Err::<R, Response<Failure<E>>>(
            Response { status: 500, body: Failure::Mint(error) },
        ),
        given(outcome) == answered(outcome),
        answer.status == 500 ==> failed::<R, E>(Failure::Refused(answer.body)) == refused::<R, E>(
            answer,
        ),
{
}

} // verus!
