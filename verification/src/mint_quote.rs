//! Mint quotes: the Lightning invoice that a client pays to have ecash issued.
use vstd::prelude::*;

use crate::amount::{scale, CurrencyUnit};
use crate::response::{into_response, Refusal, Response};
use crate::run::{Call, Failure, Run};

verus! {

/// How long invoices and quotes last, in seconds.
pub const QUOTE_LIFETIME: u64 = 1800;

/// What a client asks a mint quote for.
#[derive(Clone, Copy, Debug, PartialEq, Eq)]
pub struct MintQuoteRequest {
    pub amount: u64,
    pub unit: CurrencyUnit,
}

/// An order for an invoice from the Lightning node.
#[derive(Debug, PartialEq, Eq)]
pub struct InvoiceOrder {
    pub amount: u64,
    pub description: String,
    pub expiry: u64,
}

/// An [`InvoiceOrder`] by its description's text.
pub struct InvoiceOrderView {
    pub amount: u64,
    pub description: Seq<char>,
    pub expiry: int,
}

impl View for InvoiceOrder {
    type V = InvoiceOrderView;

    open spec fn view(&self) -> InvoiceOrderView {
        InvoiceOrderView {
            amount: self.amount,
            description: self.description@,
            expiry: self.expiry as int,
        }
    }
}

/// An order to the mint to record a mint quote.
#[derive(Debug, PartialEq, Eq)]
pub struct MintQuoteOrder {
    pub mint_url: String,
    pub request: String,
    pub unit: CurrencyUnit,
    pub amount: u64,
    pub expiry: u64,
}

/// A [`MintQuoteOrder`] by its texts.
pub struct MintQuoteOrderView {
    pub mint_url: Seq<char>,
    pub request: Seq<char>,
    pub unit: CurrencyUnit,
    pub amount: u64,
    pub expiry: int,
}

impl View for MintQuoteOrder {
    type V = MintQuoteOrderView;

    open spec fn view(&self) -> MintQuoteOrderView {
        MintQuoteOrderView {
            mint_url: self.mint_url@,
            request: self.request@,
            unit: self.unit,
            amount: self.amount,
            expiry: self.expiry as int,
        }
    }
}

/// A mint quote whose invoice was ordered. It comes from [`get_mint_bolt11_quote`] alone, so its
/// unit is one that is settled.
#[derive(Debug, PartialEq, Eq)]
pub struct AwaitingInvoice {
    payload: MintQuoteRequest,
}

impl View for AwaitingInvoice {
    type V = MintQuoteRequest;

    closed spec fn view(&self) -> MintQuoteRequest {
        self.payload
    }
}

/// The order for an invoice that a request leads to at time `now`: for the amount scaled to the
/// request's unit, with an empty description.
pub open spec fn ordered_invoice(payload: MintQuoteRequest, now: int) -> Result<
    InvoiceOrderView,
    Response<Refusal>,
> {
    match crate::amount::scaled(payload.unit, payload.amount) {
        Some(amount) => Ok(
            InvoiceOrderView { amount, description: seq![], expiry: now + QUOTE_LIFETIME },
        ),
        None => Err(crate::response::failure(Refusal::UnsupportedUnit)),
    }
}

/// The quote that is recorded at time `now`, once the Lightning node has answered: for the amount
/// and the unit that the client asked for.
pub open spec fn recorded_quote<L>(
    payload: MintQuoteRequest,
    mint_url: Seq<char>,
    invoice: Result<Seq<char>, L>,
    now: int,
) -> Result<MintQuoteOrderView, Response<Refusal>> {
    match invoice {
        Ok(request) => Ok(
            MintQuoteOrderView {
                mint_url,
                request,
                unit: payload.unit,
                amount: payload.amount,
                expiry: now + QUOTE_LIFETIME,
            },
        ),
        Err(_) => Err(crate::response::failure(Refusal::InvalidPaymentRequest)),
    }
}

/// Begins a mint quote at time `now`: orders an invoice from the Lightning node.
pub fn get_mint_bolt11_quote(payload: MintQuoteRequest, now: u64) -> (r: Result<
    (InvoiceOrder, AwaitingInvoice),
    Response<Refusal>,
>)
    requires
        crate::amount::settles(payload.unit) ==> now + QUOTE_LIFETIME <= u64::MAX,
    ensures
        crate::response::viewed(r) == match ordered_invoice(payload, now as int) {
            Ok(order) => Ok((order, payload)),
            Err(answer) => Err(answer),
        },
        match r {
            Ok((order, awaiting)) => {
                &&& match payload.unit {
                    CurrencyUnit::Sat => order.amount * 1000 <= payload.amount < order.amount * 1000
                        + 1000,
                    CurrencyUnit::Msat => order.amount == payload.amount,
                    CurrencyUnit::Other => false,
                }
                &&& order.description@.len() == 0
                &&& order.expiry == now + 1800
                &&& awaiting@ == payload
            },
            Err(answer) => {
                &&& payload.unit is Other
                &&& answer.status == 500
                &&& answer.body is UnsupportedUnit
            },
        },
{
    match scale(payload.unit, payload.amount) {
        Some(amount) => {
            let order = InvoiceOrder {
                amount,
                description: String::new(),
                expiry: now + QUOTE_LIFETIME,
            };
            Ok((order, AwaitingInvoice { payload }))
        },
        None => Err(into_response(Refusal::UnsupportedUnit)),
    }
}

impl AwaitingInvoice {
    #[verifier::type_invariant]
    spec fn unit_is_settled(self) -> bool {
        crate::amount::settles(self.payload.unit)
    }

    /// Orders the quote from the mint at time `now`, given the invoice that the Lightning node
    /// made.
    pub fn invoiced<L>(self, mint_url: &str, invoice: Result<String, L>, now: u64) -> (r: Result<
        MintQuoteOrder,
        Response<Refusal>,
    >)
        requires
            invoice is Ok ==> now + QUOTE_LIFETIME <= u64::MAX,
        ensures
            crate::response::viewed(r) == recorded_quote(
                self@,
                mint_url@,
                crate::response::viewed(invoice),
                now as int,
            ),
            r matches Ok(order) ==> crate::amount::settles(order.unit),
            match r {
                Ok(order) => {
                    &&& order.mint_url@ == mint_url@
                    &&& invoice matches Ok(request) && order.request@ == request@
                    &&& order.unit == self@.unit
                    &&& order.amount == self@.amount
                    &&& order.expiry == now + 1800
                },
                Err(answer) => {
                    &&& invoice is Err
                    &&& answer.status == 500
                    &&& answer.body is InvalidPaymentRequest
                },
            },
    {
        proof {
            use_type_invariant(&self);
        }
        match invoice {
            Ok(request) => Ok(
                MintQuoteOrder {
                    mint_url: mint_url.to_owned(),
                    request,
                    unit: self.payload.unit,
                    amount: self.payload.amount,
                    expiry: now + QUOTE_LIFETIME,
                },
            ),
            Err(_) => Err(into_response(Refusal::InvalidPaymentRequest)),
        }
    }
}

/// A mint quote, step by step: its invoice is ordered at time `ordered`, the Lightning node
/// answers with `invoice`, the quote is recorded at time `recorded`, and the mint answers with
/// `stored`.
pub open spec fn mint_quote_run<D, L, R, E>(
    payload: MintQuoteRequest,
    mint_url: Seq<char>,
    ordered: int,
    invoice: Result<Seq<char>, L>,
    recorded: int,
    stored: Result<R, E>,
) -> Run<D, R, E> {
    match ordered_invoice(payload, ordered) {
        Err(answer) => Run { calls: seq![], answer: crate::run::refused(answer) },
        Ok(order) => match recorded_quote(payload, mint_url, invoice, recorded) {
            Err(answer) => Run {
                calls: seq![Call::CreateInvoice(order)],
                answer: crate::run::refused(answer),
            },
            Ok(quote) => Run {
                calls: seq![Call::CreateInvoice(order), Call::NewMintQuote(quote)],
                answer: crate::run::answered(stored),
            },
        },
    }
}

/// A request is answered with the mint's value exactly where its unit is settled, the Lightning
/// node makes the invoice and the mint records the quote; otherwise with the status of a server
/// error and the first of these to fail.
pub proof fn law_mint_quote_is_answered<D, L, R, E>(
    payload: MintQuoteRequest,
    mint_url: Seq<char>,
    ordered: int,
    invoice: Result<Seq<char>, L>,
    recorded: int,
    stored: Result<R, E>,
)
    ensures
        ({
            let run = mint_quote_run::<D, L, R, E>(
                payload,
                mint_url,
                ordered,
                invoice,
                recorded,
                stored,
            );
            &&& run.answer is Ok <==> (payload.unit is Sat || payload.unit is Msat) && invoice is Ok
                && stored is Ok
            &&& run.answer == if payload.unit is Other {
                crate::run::failed(Failure::Refused(Refusal::UnsupportedUnit))
            } else if invoice is Err {
                crate::run::failed(Failure::Refused(Refusal::InvalidPaymentRequest))
            } else {
                crate::run::given(stored)
            }
        }),
{
}

/// A request in a unit that is not settled is refused before any call is made.
pub proof fn law_unsupported_unit_makes_no_call<D, L, R, E>(
    payload: MintQuoteRequest,
    mint_url: Seq<char>,
    ordered: int,
    invoice: Result<Seq<char>, L>,
    recorded: int,
    stored: Result<R, E>,
)
    requires
        payload.unit is Other,
    ensures
        mint_quote_run::<D, L, R, E>(payload, mint_url, ordered, invoice, recorded, stored) == (
        Run::<D, R, E> {
            calls: seq![],
            answer: crate::run::failed(Failure::Refused(Refusal::UnsupportedUnit)),
        }),
{
}

/// A request in a unit that is settled orders one invoice. A quote is recorded exactly where the
/// Lightning node made the invoice. The quote holds the node's invoice, and the amount and the
/// unit that were asked for.
pub proof fn law_quote_records_the_request<D, L, R, E>(
    payload: MintQuoteRequest,
    mint_url: Seq<char>,
    ordered: int,
    invoice: Result<Seq<char>, L>,
    recorded: int,
    stored: Result<R, E>,
)
    requires
        crate::amount::settles(payload.unit),
    ensures
        ({
            let run = mint_quote_run::<D, L, R, E>(
                payload,
                mint_url,
                ordered,
                invoice,
                recorded,
                stored,
            );
            &&& run.calls.len() >= 1
            &&& run.calls[0] is CreateInvoice
            &&& invoice matches Ok(request) ==> {
                &&& run.calls.len() == 2
                &&& run.calls[1] == Call::<D>::NewMintQuote(
                    MintQuoteOrderView {
                        mint_url,
                        request,
                        unit: payload.unit,
                        amount: payload.amount,
                        expiry: recorded + 1800,
                    },
                )
            }
            &&& invoice is Err ==> run.calls.len() == 1
        }),
{
}

/// A request in a unit that is settled orders one invoice, for the amount that was asked for: the
/// amount itself in millisatoshis, and the whole thousands of it in satoshis. The invoice has an
/// empty description and half an hour to be paid.
pub proof fn law_invoice_is_ordered_for_the_request<D, L, R, E>(
    payload: MintQuoteRequest,
    mint_url: Seq<char>,
    ordered: int,
    invoice: Result<Seq<char>, L>,
    recorded: int,
    stored: Result<R, E>,
)
    requires
        payload.unit is Sat || payload.unit is Msat,
    ensures
        ({
            let run = mint_quote_run::<D, L, R, E>(
                payload,
                mint_url,
                ordered,
                invoice,
                recorded,
                stored,
            );
            let order = ordered_invoice(payload, ordered)->Ok_0;
            &&& ordered_invoice(payload, ordered) is Ok
            &&& payload.unit is Sat ==> order.amount * 1000 <= payload.amount < (order.amount + 1)
                * 1000
            &&& payload.unit is Msat ==> order.amount == payload.amount
            &&& order.description.len() == 0
            &&& order.expiry == ordered + 1800
            &&& run.calls.len() >= 1
            &&& run.calls[0] == Call::<D>::CreateInvoice(order)
            &&& forall|i: int| 1 <= i < run.calls.len() ==> !(#[trigger] run.calls[i] is CreateInvoice)
        }),
{
}

/// A request in any other unit orders nothing and is refused for its unit.
pub proof fn law_other_units_are_not_invoiced(payload: MintQuoteRequest, now: int)
    ensures
        ordered_invoice(payload, now) is Ok <==> payload.unit != CurrencyUnit::Other,
        ordered_invoice(payload, now) matches Err(answer) ==> answer.status == 500 && answer.body
            == Refusal::UnsupportedUnit,
{
}

/// The quote is recorded for what the client asked for, with the invoice that the Lightning node
/// made, under the mint's own URL and for half an hour; where no invoice was made, it is refused.
pub proof fn law_recorded_quote_is_the_request<L>(
    payload: MintQuoteRequest,
    mint_url: Seq<char>,
    invoice: Result<Seq<char>, L>,
    now: int,
)
    ensures
        match recorded_quote(payload, mint_url, invoice, now) {
            Ok(quote) => {
                &&& invoice == Ok::<Seq<char>, L>(quote.request)
                &&& quote.mint_url == mint_url
                &&& quote.unit == payload.unit
                &&& quote.amount == payload.amount
                &&& quote.expiry - now == 1800
            },
            Err(answer) => {
                &&& invoice is Err
                &&& answer.status == 500
                &&& answer.body == Refusal::InvalidPaymentRequest
            },
        },
{
}

/// The invoice that is ordered agrees with the quote that is recorded: it is for the quote's amount
/// in millisatoshis, and for the whole thousands of it in satoshis.
pub proof fn law_invoice_agrees_with_its_quote<L>(
    payload: MintQuoteRequest,
    mint_url: Seq<char>,
    ordered: int,
    request: Seq<char>,
    recorded: int,
)
    requires
        payload.unit is Sat || payload.unit is Msat,
    ensures
        ({
            let paid = ordered_invoice(payload, ordered)->Ok_0.amount;
            let issued = recorded_quote::<L>(payload, mint_url, Ok(request), recorded)->Ok_0.amount;
            &&& payload.unit is Msat ==> paid == issued
            &&& payload.unit is Sat ==> 0 <= issued - paid * 1000 < 1000
        }),
{
}

/// A quote that is recorded no earlier than its invoice was ordered expires no earlier than the
/// invoice does.
pub proof fn law_quote_outlives_its_invoice<L>(
    payload: MintQuoteRequest,
    mint_url: Seq<char>,
    ordered: int,
    invoice: Result<Seq<char>, L>,
    recorded: int,
)
    requires
        crate::amount::settles(payload.unit),
        invoice is Ok,
        ordered <= recorded,
    ensures
        ordered_invoice(payload, ordered)->Ok_0.expiry <= recorded_quote(
            payload,
            mint_url,
            invoice,
            recorded,
        )->Ok_0.expiry,
{
}

} // verus!
