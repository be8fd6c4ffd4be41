//! Melt quotes: what paying a Lightning invoice with ecash will cost.
use vstd::prelude::*;

use crate::amount::{scale, CurrencyUnit};
use crate::invoice::{decode_invoice, Invoice, InvoiceView};
use crate::mint_quote::QUOTE_LIFETIME;
use crate::response::{into_response, Refusal, Response};
use crate::run::{Call, Failure, Run};

verus! {

/// An order to the mint to record a melt quote.
#[derive(Debug, PartialEq, Eq)]
pub struct MeltQuoteOrder {
    pub request: String,
    pub unit: CurrencyUnit,
    pub amount: u64,
    pub fee_reserve: u64,
    pub expiry: u64,
}

/// A [`MeltQuoteOrder`] by its request's text.
pub struct MeltQuoteOrderView {
    pub request: Seq<char>,
    pub unit: CurrencyUnit,
    pub amount: u64,
    pub fee_reserve: u64,
    pub expiry: int,
}

impl View for MeltQuoteOrder {
    type V = MeltQuoteOrderView;

    open spec fn view(&self) -> MeltQuoteOrderView {
        MeltQuoteOrderView {
            request: self.request@,
            unit: self.unit,
            amount: self.amount,
            fee_reserve: self.fee_reserve,
            expiry: self.expiry as int,
        }
    }
}

/// A melt quote whose amount is known and whose fee reserve is to be worked out from it.
#[derive(Debug, PartialEq, Eq)]
pub struct AwaitingFeeReserve {
    pub request: String,
    pub unit: CurrencyUnit,
    pub amount: u64,
}

/// An [`AwaitingFeeReserve`] by its request's text.
pub struct AwaitingFeeReserveView {
    pub request: Seq<char>,
    pub unit: CurrencyUnit,
    pub amount: u64,
}

impl View for AwaitingFeeReserve {
    type V = AwaitingFeeReserveView;

    open spec fn view(&self) -> AwaitingFeeReserveView {
        AwaitingFeeReserveView { request: self.request@, unit: self.unit, amount: self.amount }
    }
}

/// The amount at which an invoice is quoted in `unit`, and the text by which it is recorded: the
/// one in which the invoice is written out, whatever text it was read from. A unit that is not
/// settled is refused before an invoice without an amount is.
pub open spec fn quoted(invoice: InvoiceView, unit: CurrencyUnit) -> Result<
    AwaitingFeeReserveView,
    Response<Refusal>,
> {
    if !crate::amount::settles(unit) {
        Err(crate::response::failure(Refusal::UnsupportedUnit))
    } else {
        match invoice.amount_msat {
            None => Err(crate::response::failure(Refusal::InvoiceAmountUndefined)),
            Some(msats) => Ok(
                AwaitingFeeReserveView {
                    request: invoice.canonical,
                    unit,
                    amount: crate::amount::scaled(unit, msats)->0,
                },
            ),
        }
    }
}

/// The quote that is recorded at time `now` with a fee reserve.
pub open spec fn reserved(
    awaiting: AwaitingFeeReserveView,
    fee_reserve: u64,
    now: int,
) -> MeltQuoteOrderView {
    MeltQuoteOrderView {
        request: awaiting.request,
        unit: awaiting.unit,
        amount: awaiting.amount,
        fee_reserve,
        expiry: now + QUOTE_LIFETIME,
    }
}

/// Begins the melt quote of an invoice: works out the amount.
pub fn quote_invoice(invoice: Invoice, unit: CurrencyUnit) -> (r: Result<
    AwaitingFeeReserve,
    Response<Refusal>,
>)
    ensures
        crate::response::viewed(r) == quoted(invoice@, unit),
        match r {
            Ok(awaiting) => {
                &&& invoice.amount_msat matches Some(msats)
                &&& match unit {
                    CurrencyUnit::Sat => awaiting.amount * 1000 <= msats < awaiting.amount * 1000
                        + 1000,
                    CurrencyUnit::Msat => awaiting.amount == msats,
                    CurrencyUnit::Other => false,
                }
                &&& awaiting.unit == unit
                &&& awaiting.request@ == invoice.canonical@
            },
            Err(answer) => {
                &&& answer.status == 500
                &&& if unit is Other {
                    answer.body is UnsupportedUnit
                } else {
                    invoice.amount_msat is None && answer.body is InvoiceAmountUndefined
                }
            },
        },
{
    if matches!(unit, CurrencyUnit::Other) {
        return Err(into_response(Refusal::UnsupportedUnit));
    }
    match invoice.amount_msat {
        None => Err(into_response(Refusal::InvoiceAmountUndefined)),
        Some(msats) => match scale(unit, msats) {
            Some(amount) => Ok(AwaitingFeeReserve { request: invoice.canonical, unit, amount }),
            None => Err(into_response(Refusal::UnsupportedUnit)),
        },
    }
}

/// Begins the melt quote of a payment request, given the text that the client sent: reads it and
/// works out the amount. A text that is no payment request is no melt quote request either; it
/// comes back as the reason why it cannot be read.
pub fn get_melt_bolt11_quote(request: &str, unit: CurrencyUnit) -> (r: Result<
    Result<AwaitingFeeReserve, Response<Refusal>>,
    String,
>)
    ensures
        match r {
            Ok(answer) => crate::invoice::decoded(request@) is Ok && crate::response::viewed(answer)
                == quoted(crate::invoice::decoded(request@)->Ok_0, unit),
            Err(reason) => crate::invoice::decoded(request@) == Err::<InvoiceView, Seq<char>>(
                reason@,
            ),
        },
        match r {
            Ok(Ok(awaiting)) => {
                &&& crate::invoice::bolt11(request@) matches Ok(read)
                &&& read.amount_msat matches Some(msats)
                &&& match unit {
                    CurrencyUnit::Sat => awaiting.amount * 1000 <= msats < awaiting.amount * 1000
                        + 1000,
                    CurrencyUnit::Msat => awaiting.amount == msats,
                    CurrencyUnit::Other => false,
                }
                &&& awaiting.unit == unit
                &&& awaiting.request@ == read.canonical
            },
            Ok(Err(answer)) => {
                &&& crate::invoice::bolt11(request@) matches Ok(read)
                &&& answer.status == 500
                &&& if unit is Other {
                    answer.body is UnsupportedUnit
                } else {
                    read.amount_msat is None && answer.body is InvoiceAmountUndefined
                }
            },
            Err(reason) => crate::invoice::bolt11(request@) matches Err(why) && reason@ == why,
        },
{
    match decode_invoice(request) {
        Ok(invoice) => Ok(quote_invoice(invoice, unit)),
        Err(reason) => Err(reason),
    }
}

impl AwaitingFeeReserve {
    /// Orders the quote from the mint at time `now`, given the fee reserve.
    pub fn reserve(self, fee_reserve: u64, now: u64) -> (r: MeltQuoteOrder)
        requires
            now + QUOTE_LIFETIME <= u64::MAX,
        ensures
            r@ == reserved(self@, fee_reserve, now as int),
            r.request@ == self.request@,
            r.unit == self.unit,
            r.amount == self.amount,
            r.fee_reserve == fee_reserve,
            r.expiry == now + 1800,
    {
        MeltQuoteOrder {
            request: self.request,
            unit: self.unit,
            amount: self.amount,
            fee_reserve,
            expiry: now + QUOTE_LIFETIME,
        }
    }
}

/// An invoice is quoted exactly where its unit is settled and it states an amount.
pub proof fn law_quoted_iff_settled_and_stated(invoice: InvoiceView, unit: CurrencyUnit)
    ensures
        quoted(invoice, unit) is Ok <==> (unit is Sat || unit is Msat) && invoice.amount_msat
            is Some,
        quoted(invoice, unit) matches Err(answer) ==> answer.status == 500 && answer.body == if (
        unit is Other) {
            Refusal::UnsupportedUnit
        } else {
            Refusal::InvoiceAmountUndefined
        },
{
}

/// An invoice that states an amount is quoted at it, exactly: at the millisatoshis themselves, or
/// at the whole satoshis in them. The quote is in the unit that was asked for, and holds the text
/// in which the invoice is written out.
pub proof fn law_quoted_amount_is_exact(invoice: InvoiceView, unit: CurrencyUnit, msats: u64)
    requires
        invoice.amount_msat == Some(msats),
        unit is Sat || unit is Msat,
    ensures
        quoted(invoice, unit) is Ok,
        ({
            let quote = quoted(invoice, unit)->Ok_0;
            &&& unit is Sat ==> quote.amount * 1000 <= msats && msats - quote.amount * 1000 < 1000
            &&& unit is Msat ==> quote.amount == msats
            &&& quote.unit == unit
            &&& quote.request == invoice.canonical
        }),
{
}

/// A payment request is quoted at the amount that reading it gives.
pub proof fn law_request_is_quoted_at_its_amount(request: Seq<char>, unit: CurrencyUnit)
    requires
        crate::invoice::bolt11(request) is Ok,
        crate::invoice::bolt11(request)->Ok_0.amount_msat is Some,
        unit is Sat || unit is Msat,
    ensures
        ({
            let read = crate::invoice::bolt11(request)->Ok_0;
            let msats = read.amount_msat->0;
            let quote = quoted(crate::invoice::decoded(request)->Ok_0, unit);
            &&& quote is Ok
            &&& unit is Sat ==> 0 <= msats - quote->Ok_0.amount * 1000 < 1000
            &&& unit is Msat ==> quote->Ok_0.amount == msats
            &&& quote->Ok_0.unit == unit
            &&& quote->Ok_0.request == read.canonical
        }),
{
}

/// Invoices are quoted alike in millisatoshis exactly where they state the same amount; quotes in
/// satoshis and in millisatoshis of one invoice differ by less than one satoshi.
pub proof fn law_quotes_differ_as_amounts_do(invoice: InvoiceView, other: InvoiceView)
    requires
        invoice.amount_msat is Some,
        other.amount_msat is Some,
    ensures
        quoted(invoice, CurrencyUnit::Msat)->Ok_0.amount == quoted(
            other,
            CurrencyUnit::Msat,
        )->Ok_0.amount <==> invoice.amount_msat == other.amount_msat,
        0 <= quoted(invoice, CurrencyUnit::Msat)->Ok_0.amount - quoted(
            invoice,
            CurrencyUnit::Sat,
        )->Ok_0.amount * 1000 < 1000,
{
}

/// The fee reserve and the expiry are all that is added to a quote when it is recorded: the fee
/// reserve as it was worked out, and half an hour.
pub proof fn law_reserving_adds_fee_and_expiry(
    awaiting: AwaitingFeeReserveView,
    fee_reserve: u64,
    now: int,
)
    ensures
        ({
            let order = reserved(awaiting, fee_reserve, now);
            &&& order.request == awaiting.request
            &&& order.unit == awaiting.unit
            &&& order.amount == awaiting.amount
            &&& order.fee_reserve == fee_reserve
            &&& order.expiry - now == 1800
        }),
{
}

/// A larger invoice is quoted no lower in the same unit.
pub proof fn law_larger_invoice_is_quoted_no_lower(
    smaller: InvoiceView,
    larger: InvoiceView,
    unit: CurrencyUnit,
)
    requires
        quoted(smaller, unit) is Ok,
        quoted(larger, unit) is Ok,
        smaller.amount_msat->0 <= larger.amount_msat->0,
    ensures
        quoted(smaller, unit)->Ok_0.amount <= quoted(larger, unit)->Ok_0.amount,
{
    crate::amount::law_scaling_is_monotonic(unit, smaller.amount_msat->0, larger.amount_msat->0);
}

/// The quote of an invoice as it is recorded at time `now`, where `fee` says what the fee reserve
/// for an amount comes to.
pub open spec fn recorded(
    invoice: InvoiceView,
    unit: CurrencyUnit,
    fee: spec_fn(u64) -> u64,
    now: int,
) -> Result<MeltQuoteOrderView, Response<Refusal>> {
    match quoted(invoice, unit) {
        Ok(awaiting) => Ok(reserved(awaiting, fee(awaiting.amount), now)),
        Err(answer) => Err(answer),
    }
}

/// Where a larger amount has no smaller fee reserve, a larger invoice is recorded with no lower
/// amount and no smaller fee reserve; where no amount has a fee reserve, none is recorded.
pub proof fn law_larger_invoice_reserves_no_less(
    smaller: InvoiceView,
    larger: InvoiceView,
    unit: CurrencyUnit,
    fee: spec_fn(u64) -> u64,
    first: int,
    second: int,
)
    requires
        quoted(smaller, unit) is Ok,
        quoted(larger, unit) is Ok,
        smaller.amount_msat->0 <= larger.amount_msat->0,
        forall|a: u64, b: u64| a <= b ==> #[trigger] fee(a) <= #[trigger] fee(b),
    ensures
        ({
            let less = recorded(smaller, unit, fee, first)->Ok_0;
            let more = recorded(larger, unit, fee, second)->Ok_0;
            &&& less.amount <= more.amount
            &&& less.fee_reserve <= more.fee_reserve
            &&& (forall|a: u64| #[trigger] fee(a) == 0) ==> less.fee_reserve == 0
                && more.fee_reserve == 0
        }),
{
    law_larger_invoice_is_quoted_no_lower(smaller, larger, unit);
}

/// A melt quote, step by step: the invoice is quoted in `unit`, `fee` says what the fee reserve
/// for an amount comes to, the quote is recorded at time `now`, and the mint answers with
/// `stored`.
pub open spec fn melt_quote_run<D, R, E>(
    invoice: InvoiceView,
    unit: CurrencyUnit,
    fee: spec_fn(u64) -> u64,
    now: int,
    stored: Result<R, E>,
) -> Run<D, R, E> {
    match recorded(invoice, unit, fee, now) {
        Err(answer) => Run { calls: seq![], answer: crate::run::refused(answer) },
        Ok(order) => Run {
            calls: seq![Call::NewMeltQuote(order)],
            answer: crate::run::answered(stored),
        },
    }
}

/// A melt quote neither makes nor pays an invoice: it makes no call to the Lightning node. It
/// makes one call to the mint, to record the quote, where it is not refused, and none where it
/// is.
pub proof fn law_melt_quote_only_records<D, R, E>(
    invoice: InvoiceView,
    unit: CurrencyUnit,
    fee: spec_fn(u64) -> u64,
    now: int,
    stored: Result<R, E>,
)
    ensures
        ({
            let run = melt_quote_run::<D, R, E>(invoice, unit, fee, now, stored);
            &&& run.calls.len() == if quoted(invoice, unit) is Ok {
                1int
            } else {
                0
            }
            &&& forall|i: int|
                0 <= i < run.calls.len() ==> {
                    &&& run.calls[i] is NewMeltQuote
                    &&& !crate::run::is_to_lightning(run.calls[i])
                }
        }),
{
}

/// The quote that the mint is told to record is for the invoice: at its amount, in the unit that was
/// asked for, by the text in which it is written out, with the fee reserve for that amount, and for
/// half an hour.
pub proof fn law_recorded_quote_is_for_the_invoice<D, R, E>(
    invoice: InvoiceView,
    unit: CurrencyUnit,
    fee: spec_fn(u64) -> u64,
    now: int,
    stored: Result<R, E>,
)
    requires
        invoice.amount_msat is Some,
        unit is Sat || unit is Msat,
    ensures
        ({
            let calls = melt_quote_run::<D, R, E>(invoice, unit, fee, now, stored).calls;
            let msats = invoice.amount_msat->0;
            &&& calls.len() == 1
            &&& calls[0] matches Call::NewMeltQuote(order)
            &&& unit is Sat ==> 0 <= msats - order.amount * 1000 < 1000
            &&& unit is Msat ==> order.amount == msats
            &&& order.unit == unit
            &&& order.request == invoice.canonical
            &&& order.fee_reserve == fee(order.amount)
            &&& order.expiry - now == 1800
        }),
{
}

/// A melt quote is answered with the mint's value exactly where its unit is settled, its invoice
/// states an amount and the mint records the quote; otherwise with the status of a server error
/// and the first of these to fail.
pub proof fn law_melt_quote_is_answered<D, R, E>(
    invoice: InvoiceView,
    unit: CurrencyUnit,
    fee: spec_fn(u64) -> u64,
    now: int,
    stored: Result<R, E>,
)
    ensures
        ({
            let run = melt_quote_run::<D, R, E>(invoice, unit, fee, now, stored);
            &&& run.answer is Ok <==> (unit is Sat || unit is Msat) && invoice.amount_msat is Some
                && stored is Ok
            &&& run.answer == if unit is Other {
                crate::run::failed(Failure::Refused(Refusal::UnsupportedUnit))
            } else if invoice.amount_msat is None {
                crate::run::failed(Failure::Refused(Refusal::InvoiceAmountUndefined))
            } else {
                crate::run::given(stored)
            }
        }),
{
}

} // verus!
