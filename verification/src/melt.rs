//! Melting: paying a Lightning invoice with ecash.
use vstd::prelude::*;

use crate::amount::{scale, CurrencyUnit};
use crate::invoice::{decode_invoice, Invoice, InvoiceView};
use crate::quote_state::MintQuoteState;
use crate::response::{into_response, Refusal, Response};
use crate::run::{Call, Failure, Run};

verus! {

/// The melt quote of a request that the mint has verified.
#[derive(Debug, PartialEq, Eq)]
pub struct MeltQuote {
    pub request: String,
    pub unit: CurrencyUnit,
    pub amount: u64,
}

/// A [`MeltQuote`] by its request's text.
pub struct MeltQuoteView {
    pub request: Seq<char>,
    pub unit: CurrencyUnit,
    pub amount: u64,
}

impl View for MeltQuote {
    type V = MeltQuoteView;

    open spec fn view(&self) -> MeltQuoteView {
        MeltQuoteView { request: self.request@, unit: self.unit, amount: self.amount }
    }
}

/// A mint quote of the mint's own: its state, and all else that is stored with it.
#[derive(Debug, PartialEq, Eq)]
pub struct StoredQuote<D> {
    pub state: MintQuoteState,
    pub details: D,
}

/// What the Lightning node reports of a payment that it made.
#[derive(Debug, PartialEq, Eq)]
pub struct Receipt {
    pub total_spent_msats: u64,
    pub payment_preimage: Option<String>,
}

/// A [`Receipt`] by its preimage's text.
pub struct ReceiptView {
    pub total_spent_msats: u64,
    pub payment_preimage: Option<Seq<char>>,
}

/// An order to pay an invoice.
#[derive(Debug, PartialEq, Eq)]
pub struct PaymentOrder {
    pub invoice: Invoice,
    pub partial_msats: Option<u64>,
    pub max_fee_msats: Option<u64>,
}

/// A [`PaymentOrder`] by its invoice's texts.
pub struct PaymentOrderView {
    pub invoice: InvoiceView,
    pub partial_msats: Option<u64>,
    pub max_fee_msats: Option<u64>,
}

impl View for PaymentOrder {
    type V = PaymentOrderView;

    open spec fn view(&self) -> PaymentOrderView {
        PaymentOrderView {
            invoice: self.invoice@,
            partial_msats: self.partial_msats,
            max_fee_msats: self.max_fee_msats,
        }
    }
}

/// How a melt was settled: what the mint is told when it spends the ecash.
#[derive(Debug, PartialEq, Eq)]
pub struct Settlement {
    pub preimage: Option<String>,
    pub amount_spent: u64,
}

/// A [`Settlement`] by its preimage's text.
pub struct SettlementView {
    pub preimage: Option<Seq<char>>,
    pub amount_spent: u64,
}

impl View for Receipt {
    type V = ReceiptView;

    open spec fn view(&self) -> ReceiptView {
        ReceiptView {
            total_spent_msats: self.total_spent_msats,
            payment_preimage: crate::response::text_of(self.payment_preimage),
        }
    }
}

impl View for Settlement {
    type V = SettlementView;

    open spec fn view(&self) -> SettlementView {
        SettlementView { preimage: crate::response::text_of(self.preimage), amount_spent: self.amount_spent }
    }
}

/// A melt whose payment request was read. Next, the mint is asked whether it issued the request
/// itself.
#[derive(Debug, PartialEq, Eq)]
pub struct Melt {
    pub quote: MeltQuote,
    pub invoice: Invoice,
}

/// A [`Melt`] by its texts.
pub struct MeltView {
    pub quote: MeltQuoteView,
    pub invoice: InvoiceView,
}

impl View for Melt {
    type V = MeltView;

    open spec fn view(&self) -> MeltView {
        MeltView { quote: self.quote@, invoice: self.invoice@ }
    }
}

/// A melt whose payment was ordered from the Lightning node.
#[derive(Debug, PartialEq, Eq)]
pub struct PendingPayment {
    pub unit: CurrencyUnit,
}

/// The two ways to settle a melt.
#[derive(Debug, PartialEq, Eq)]
pub enum MeltRoute<D> {
    /// The mint issued the payment request: its own quote is stored as paid, and nothing is paid
    /// over Lightning.
    Internal { update: StoredQuote<D>, settlement: Settlement },
    /// The payment request is someone else's: the Lightning node pays it.
    Lightning { order: PaymentOrder, pending: PendingPayment },
}

/// A [`MeltRoute`] by its texts.
pub enum MeltRouteView<D> {
    Internal { update: StoredQuote<D>, settlement: SettlementView },
    Lightning { order: PaymentOrderView, pending: PendingPayment },
}

impl<D> View for MeltRoute<D> {
    type V = MeltRouteView<D>;

    open spec fn view(&self) -> MeltRouteView<D> {
        match *self {
            MeltRoute::Internal { update, settlement } => MeltRouteView::Internal {
                update,
                settlement: settlement@,
            },
            MeltRoute::Lightning { order, pending } => MeltRouteView::Lightning {
                order: order@,
                pending,
            },
        }
    }
}

/// A melt goes on exactly where its payment request could be read.
pub open spec fn begun(quote: MeltQuoteView, read: Result<InvoiceView, Seq<char>>) -> Result<
    MeltView,
    Response<Refusal>,
> {
    match read {
        Ok(invoice) => Ok(MeltView { quote, invoice }),
        Err(_) => Err(crate::response::failure(Refusal::InvalidPaymentRequest)),
    }
}

/// How to settle a melt. A payment request that the mint issued is settled for the quoted amount
/// and without a preimage, and the mint quote behind it becomes paid; any other is paid in full,
/// with no limit on the fee.
pub open spec fn routed<D>(melt: MeltView, own: Option<StoredQuote<D>>) -> MeltRouteView<D> {
    match own {
        Some(own) => MeltRouteView::Internal {
            update: StoredQuote { state: MintQuoteState::Paid, details: own.details },
            settlement: SettlementView { preimage: None, amount_spent: melt.quote.amount },
        },
        None => MeltRouteView::Lightning {
            order: PaymentOrderView {
                invoice: melt.invoice,
                partial_msats: None,
                max_fee_msats: None,
            },
            pending: PendingPayment { unit: melt.quote.unit },
        },
    }
}

/// How a melt in `unit` is settled by what the Lightning node answered, or why it is refused.
pub open spec fn settled<L>(unit: CurrencyUnit, outcome: Result<ReceiptView, L>) -> Result<
    SettlementView,
    Response<Refusal>,
> {
    match outcome {
        Ok(receipt) => match crate::amount::scaled(unit, receipt.total_spent_msats) {
            Some(amount_spent) => Ok(
                SettlementView { preimage: receipt.payment_preimage, amount_spent },
            ),
            None => Err(crate::response::failure(Refusal::UnsupportedUnit)),
        },
        Err(_) => Err(crate::response::failure(Refusal::PaymentFailed)),
    }
}

/// Begins the melt of a verified quote, given what reading its payment request gave.
pub fn begin_melt(quote: MeltQuote, read: Result<Invoice, String>) -> (r: Result<
    Melt,
    Response<Refusal>,
>)
    ensures
        crate::response::viewed(r) == begun(quote@, crate::invoice::reading(read)),
        match r {
            Ok(melt) => melt.quote == quote && read == Ok::<Invoice, String>(melt.invoice),
            Err(answer) => {
                &&& read is Err
                &&& answer.status == 500
                &&& answer.body is InvalidPaymentRequest
            },
        },
{
    match read {
        Ok(invoice) => Ok(Melt { quote, invoice }),
        Err(_) => Err(into_response(Refusal::InvalidPaymentRequest)),
    }
}

/// Begins the melt of a quote that the mint has verified: reads its payment request.
pub fn post_melt_bolt11(quote: MeltQuote) -> (r: Result<Melt, Response<Refusal>>)
    ensures
        crate::response::viewed(r) == begun(quote@, crate::invoice::decoded(quote.request@)),
        match r {
            Ok(melt) => {
                &&& crate::invoice::bolt11(quote.request@) matches Ok(read)
                &&& melt.quote == quote
                &&& melt.invoice.text@ == quote.request@
                &&& melt.invoice.amount_msat == read.amount_msat
                &&& melt.invoice.payment_hash@ == read.payment_hash
                &&& melt.invoice.canonical@ == read.canonical
            },
            Err(answer) => {
                &&& crate::invoice::bolt11(quote.request@) is Err
                &&& answer.status == 500
                &&& answer.body is InvalidPaymentRequest
            },
        },
{
    let read = decode_invoice(quote.request.as_str());
    begin_melt(quote, read)
}

impl Melt {
    /// The payment request by which to look for a mint quote of the mint's own.
    pub fn request(&self) -> (r: &str)
        ensures
            r@ == self@.quote.request,
            r@ == self.quote.request@,
    {
        self.quote.request.as_str()
    }

    /// Chooses how to settle, given the mint quote that the mint holds for the payment request.
    pub fn found<D>(self, own: Option<StoredQuote<D>>) -> (r: MeltRoute<D>)
        ensures
            r@ == routed(self@, own),
            match own {
                Some(own) => {
                    &&& r matches MeltRoute::Internal { update, settlement }
                    &&& update.state is Paid
                    &&& update.details == own.details
                    &&& settlement.preimage is None
                    &&& settlement.amount_spent == self.quote.amount
                },
                None => {
                    &&& r matches MeltRoute::Lightning { order, pending }
                    &&& order.invoice == self.invoice
                    &&& order.partial_msats is None
                    &&& order.max_fee_msats is None
                    &&& pending.unit == self.quote.unit
                },
            },
    {
        match own {
            Some(own) => MeltRoute::Internal {
                update: StoredQuote { state: MintQuoteState::Paid, details: own.details },
                settlement: Settlement { preimage: None, amount_spent: self.quote.amount },
            },
            None => MeltRoute::Lightning {
                order: PaymentOrder {
                    invoice: self.invoice,
                    partial_msats: None,
                    max_fee_msats: None,
                },
                pending: PendingPayment { unit: self.quote.unit },
            },
        }
    }
}

impl PendingPayment {
    /// Settles by what the Lightning node answered to the payment order.
    pub fn paid<L>(self, outcome: Result<Receipt, L>) -> (r: Result<Settlement, Response<Refusal>>)
        ensures
            crate::response::viewed(r) == settled(self.unit, crate::response::viewed(outcome)),
            match r {
                Ok(settlement) => {
                    &&& outcome matches Ok(receipt)
                    &&& settlement.preimage == receipt.payment_preimage
                    &&& match self.unit {
                        CurrencyUnit::Sat => settlement.amount_spent * 1000
                            <= receipt.total_spent_msats < settlement.amount_spent * 1000 + 1000,
                        CurrencyUnit::Msat => settlement.amount_spent == receipt.total_spent_msats,
                        CurrencyUnit::Other => false,
                    }
                },
                Err(answer) => {
                    &&& answer.status == 500
                    &&& if outcome is Err {
                        answer.body is PaymentFailed
                    } else {
                        self.unit is Other && answer.body is UnsupportedUnit
                    }
                },
            },
    {
        match outcome {
            Ok(receipt) => match scale(self.unit, receipt.total_spent_msats) {
                Some(amount_spent) => Ok(
                    Settlement { preimage: receipt.payment_preimage, amount_spent },
                ),
                None => Err(into_response(Refusal::UnsupportedUnit)),
            },
            Err(_) => Err(into_response(Refusal::PaymentFailed)),
        }
    }
}

/// A melt, step by step: `verified` is the quote that the mint verified it against, `read` what
/// reading its payment request gave, `own` the mint's own quote for the request, `outcome` what
/// the Lightning node answers if it is asked to pay, and `processed` what the mint answers if it
/// is told to spend the ecash. The mint can be asked for its own quote and can store it: a melt
/// of which this fails is given up without an answer.
pub open spec fn melt_run<D, L, R, E>(
    verified: Result<MeltQuoteView, E>,
    read: Result<InvoiceView, Seq<char>>,
    own: Option<StoredQuote<D>>,
    outcome: Result<ReceiptView, L>,
    processed: Result<R, E>,
) -> Run<D, R, E> {
    match crate::response::relayed(verified) {
        Err(answer) => Run {
            calls: seq![Call::VerifyMelt],
            answer: Err(crate::response::converted(answer, |error: E| Failure::Mint(error))),
        },
        Ok(quote) => match begun(quote, read) {
            Err(answer) => Run {
                calls: seq![Call::VerifyMelt],
                answer: crate::run::refused(answer),
            },
            Ok(melt) => {
                let begin = seq![Call::VerifyMelt, Call::FindOwnQuote(melt.quote.request)];
                match routed(melt, own) {
                    MeltRouteView::Internal { update, settlement } => Run {
                        calls: begin + seq![
                            Call::StoreQuote(update),
                            Call::ProcessMelt(settlement),
                        ],
                        answer: crate::run::answered(processed),
                    },
                    MeltRouteView::Lightning { order, pending } => match settled(
                        pending.unit,
                        outcome,
                    ) {
                        Ok(settlement) => Run {
                            calls: begin + seq![
                                Call::PayInvoice(order),
                                Call::ProcessMelt(settlement),
                            ],
                            answer: crate::run::answered(processed),
                        },
                        Err(answer) => Run {
                            calls: begin + seq![Call::PayInvoice(order)],
                            answer: crate::run::refused(answer),
                        },
                    },
                }
            },
        },
    }
}

/// Whether a melt comes so far that the mint is told to spend the ecash: it was verified, its
/// payment request could be read, and the mint issued the request or it was paid in a unit that
/// is settled.
pub open spec fn is_settled<D, L, E>(
    verified: Result<MeltQuoteView, E>,
    read: Result<InvoiceView, Seq<char>>,
    own: Option<StoredQuote<D>>,
    outcome: Result<ReceiptView, L>,
) -> bool {
    &&& verified is Ok
    &&& read is Ok
    &&& own is Some || outcome is Ok && crate::amount::settles(verified->Ok_0.unit)
}

/// A melt goes on exactly where its payment request could be read, and with that very quote and
/// invoice.
pub proof fn law_melt_begins_with_its_quote(
    quote: MeltQuoteView,
    read: Result<InvoiceView, Seq<char>>,
)
    ensures
        match begun(quote, read) {
            Ok(melt) => melt.quote == quote && read == Ok::<InvoiceView, Seq<char>>(melt.invoice),
            Err(answer) => {
                &&& read is Err
                &&& answer.status == 500
                &&& answer.body == Refusal::InvalidPaymentRequest
            },
        },
{
}

/// A melt is settled internally exactly where the mint holds a quote of its own for the payment
/// request. Otherwise the very invoice of the melt is paid, in full and whatever the fee, and the
/// payment is counted in the unit of the melt's quote.
pub proof fn law_route_keeps_the_quote<D>(melt: MeltView, own: Option<StoredQuote<D>>)
    ensures
        match routed(melt, own) {
            MeltRouteView::Internal { update, settlement } => {
                &&& own matches Some(own)
                &&& update.details == own.details
                &&& update.state == MintQuoteState::Paid
                &&& settlement.preimage is None
                &&& settlement.amount_spent == melt.quote.amount
            },
            MeltRouteView::Lightning { order, pending } => {
                &&& own is None
                &&& order.invoice == melt.invoice
                &&& order.partial_msats is None
                &&& order.max_fee_msats is None
                &&& pending.unit == melt.quote.unit
            },
        },
{
}

/// A payment that was made is settled with its preimage and for what was spent: the millisatoshis
/// themselves, or the whole satoshis in them. One that was not made, or is in a unit that is not
/// settled, is refused.
pub proof fn law_settlement_is_the_receipt<L>(
    unit: CurrencyUnit,
    outcome: Result<ReceiptView, L>,
)
    ensures
        match settled(unit, outcome) {
            Ok(settlement) => {
                &&& outcome matches Ok(receipt)
                &&& unit is Sat || unit is Msat
                &&& settlement.preimage == receipt.payment_preimage
                &&& unit is Sat ==> 0 <= receipt.total_spent_msats - settlement.amount_spent * 1000
                    < 1000
                &&& unit is Msat ==> settlement.amount_spent == receipt.total_spent_msats
            },
            Err(answer) => {
                &&& answer.status == 500
                &&& outcome is Err ==> answer.body == Refusal::PaymentFailed
                &&& outcome is Ok ==> unit is Other && answer.body == Refusal::UnsupportedUnit
            },
        },
{
}

/// A melt that the Lightning node paid ends by telling the mint the receipt's preimage and what
/// was spent, in the unit of the quote that the mint verified: the millisatoshis themselves for a
/// quote in millisatoshis, the whole satoshis in them for a quote in satoshis.
pub proof fn law_mint_is_told_what_was_spent<D, L, R, E>(
    quote: MeltQuoteView,
    invoice: InvoiceView,
    receipt: ReceiptView,
    processed: Result<R, E>,
)
    requires
        quote.unit is Sat || quote.unit is Msat,
    ensures
        ({
            let calls = melt_run::<D, L, R, E>(
                Ok(quote),
                Ok(invoice),
                None,
                Ok(receipt),
                processed,
            ).calls;
            &&& calls.len() == 4
            &&& calls[3] matches Call::ProcessMelt(settlement)
            &&& settlement.preimage == receipt.payment_preimage
            &&& quote.unit is Msat ==> settlement.amount_spent == receipt.total_spent_msats
            &&& quote.unit is Sat ==> settlement.amount_spent * 1000 <= receipt.total_spent_msats
                < (settlement.amount_spent + 1) * 1000
        }),
{
}

/// The invoice that is paid for a melt is the one that the payment request of the verified quote
/// reads as: by its text, its amount and its payment hash.
pub proof fn law_quoted_request_is_what_is_paid<D, L, R, E>(
    quote: MeltQuoteView,
    outcome: Result<ReceiptView, L>,
    processed: Result<R, E>,
)
    requires
        crate::invoice::bolt11(quote.request) is Ok,
    ensures
        ({
            let calls = melt_run::<D, L, R, E>(
                Ok(quote),
                crate::invoice::decoded(quote.request),
                None,
                outcome,
                processed,
            ).calls;
            let read = crate::invoice::bolt11(quote.request)->Ok_0;
            &&& calls.len() >= 3
            &&& calls[2] matches Call::PayInvoice(order)
            &&& order.invoice.text == quote.request
            &&& order.invoice.amount_msat == read.amount_msat
            &&& order.invoice.payment_hash == read.payment_hash
            &&& order.invoice.canonical == read.canonical
            &&& order.partial_msats is None
            &&& order.max_fee_msats is None
        }),
{
}

/// A melt is answered with the mint's value exactly where the mint verifies it, it is settled and
/// the mint spends the ecash; otherwise with the status of a server error and the first of these
/// to fail.
pub proof fn law_melt_is_answered<D, L, R, E>(
    verified: Result<MeltQuoteView, E>,
    read: Result<InvoiceView, Seq<char>>,
    own: Option<StoredQuote<D>>,
    outcome: Result<ReceiptView, L>,
    processed: Result<R, E>,
)
    ensures
        ({
            let run = melt_run(verified, read, own, outcome, processed);
            &&& run.answer is Ok <==> is_settled(verified, read, own, outcome) && processed is Ok
            &&& is_settled(verified, read, own, outcome) <==> {
                &&& verified matches Ok(quote)
                &&& read is Ok
                &&& own is Some || outcome is Ok && (quote.unit is Sat || quote.unit is Msat)
            }
            &&& run.answer == match verified {
                Err(error) => crate::run::failed(Failure::Mint(error)),
                Ok(quote) => if read is Err {
                    crate::run::failed(Failure::Refused(Refusal::InvalidPaymentRequest))
                } else if own is None && outcome is Err {
                    crate::run::failed(Failure::Refused(Refusal::PaymentFailed))
                } else if own is None && quote.unit is Other {
                    crate::run::failed(Failure::Refused(Refusal::UnsupportedUnit))
                } else {
                    crate::run::given(processed)
                },
            }
        }),
{
}

/// A payment request that the mint issued itself is never paid over Lightning, whatever the
/// Lightning node would answer: the quote behind it becomes paid with nothing else of it changed,
/// and exactly the quoted amount is spent.
pub proof fn law_own_request_is_settled_internally<D, L, R, E>(
    quote: MeltQuoteView,
    invoice: InvoiceView,
    own: StoredQuote<D>,
    outcome: Result<ReceiptView, L>,
    processed: Result<R, E>,
)
    ensures
        ({
            let run = melt_run(Ok(quote), Ok(invoice), Some(own), outcome, processed);
            &&& run.calls == seq![
                Call::VerifyMelt,
                Call::FindOwnQuote(quote.request),
                Call::StoreQuote(StoredQuote { state: MintQuoteState::Paid, details: own.details }),
                Call::ProcessMelt(SettlementView { preimage: None, amount_spent: quote.amount }),
            ]
            &&& forall|i: int|
                0 <= i < run.calls.len() ==> !crate::run::is_to_lightning(run.calls[i])
        }),
{
}

/// A payment request that the mint did not issue is paid over Lightning, in full, exactly once,
/// and after the mint verified the melt and was asked for a quote of its own.
pub proof fn law_foreign_request_is_paid_once<D, L, R, E>(
    quote: MeltQuoteView,
    invoice: InvoiceView,
    outcome: Result<ReceiptView, L>,
    processed: Result<R, E>,
)
    ensures
        ({
            let run = melt_run::<D, L, R, E>(Ok(quote), Ok(invoice), None, outcome, processed);
            &&& run.calls.len() >= 3
            &&& run.calls[0] == Call::<D>::VerifyMelt
            &&& run.calls[1] == Call::<D>::FindOwnQuote(quote.request)
            &&& run.calls[2] == Call::<D>::PayInvoice(
                PaymentOrderView { invoice, partial_msats: None, max_fee_msats: None },
            )
            &&& forall|i: int|
                0 <= i < run.calls.len() && i != 2 ==> !crate::run::is_to_lightning(run.calls[i])
        }),
{
}

/// The mint is told to spend the ecash by the last call of a melt and by no other, and exactly
/// where the melt is settled.
pub proof fn law_ecash_is_spent_iff_settled<D, L, R, E>(
    verified: Result<MeltQuoteView, E>,
    read: Result<InvoiceView, Seq<char>>,
    own: Option<StoredQuote<D>>,
    outcome: Result<ReceiptView, L>,
    processed: Result<R, E>,
)
    ensures
        ({
            let run = melt_run(verified, read, own, outcome, processed);
            &&& run.calls.len() > 0
            &&& forall|i: int|
                0 <= i < run.calls.len() ==> (run.calls[i] is ProcessMelt <==> is_settled(
                    verified,
                    read,
                    own,
                    outcome,
                ) && i == run.calls.len() - 1)
        }),
{
}

/// A melt that is paid over Lightning for no less than its invoice asks is settled, and spends no
/// less than the invoice was quoted at.
pub proof fn law_spent_covers_the_quote<L>(
    invoice: InvoiceView,
    unit: CurrencyUnit,
    receipt: ReceiptView,
)
    requires
        crate::melt_quote::quoted(invoice, unit) is Ok,
        invoice.amount_msat->0 <= receipt.total_spent_msats,
    ensures
        settled::<L>(unit, Ok(receipt)) is Ok,
        crate::melt_quote::quoted(invoice, unit)->Ok_0.amount <= settled::<L>(
            unit,
            Ok(receipt),
        )->Ok_0.amount_spent,
{
}

/// A payment request that was quoted can be melted, as long as the text that the quote records
/// can be read: the unit of the quote is settled, and the melt goes on with the invoice that the
/// text holds.
pub proof fn law_quoted_request_can_be_melted(
    invoice: InvoiceView,
    unit: CurrencyUnit,
    fee_reserve: u64,
    now: int,
)
    requires
        crate::melt_quote::quoted(invoice, unit) is Ok,
        crate::invoice::decoded(invoice.canonical) is Ok,
    ensures
        ({
            let order = crate::melt_quote::reserved(
                crate::melt_quote::quoted(invoice, unit)->Ok_0,
                fee_reserve,
                now,
            );
            let quote = MeltQuoteView {
                request: order.request,
                unit: order.unit,
                amount: order.amount,
            };
            &&& begun(quote, crate::invoice::decoded(quote.request)) == Ok::<
                MeltView,
                Response<Refusal>,
            >(MeltView { quote, invoice: crate::invoice::decoded(invoice.canonical)->Ok_0 })
            &&& crate::amount::settles(quote.unit)
        }),
{
}

} // verus!
