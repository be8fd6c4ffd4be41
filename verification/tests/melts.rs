use cdk_mintd::amount::CurrencyUnit;
use cdk_mintd::invoice::Invoice;
use cdk_mintd::melt::{
    begin_melt, post_melt_bolt11, Melt, MeltQuote, MeltRoute, PaymentOrder, PendingPayment,
    Receipt, Settlement, StoredQuote,
};
use cdk_mintd::melt_quote::get_melt_bolt11_quote;
use cdk_mintd::quote_state::MintQuoteState;
use cdk_mintd::response::{relay, Refusal, Response};

const REQUEST: &str = "lnbc2500u1pvjluezsp5zyg3zyg3zyg3zyg3zyg3zyg3zyg3zyg3zyg3zyg3zyg3zyg3zygspp5qqqsyqcyq5rqwzqfqqqsyqcyq5rqwzqfqqqsyqcyq5rqwzqfqypqdq5xysxxatsyp3k7enxv4jsxqzpu9qrsgquk0rl77nj30yxdy8j9vdx85fkpmdla2087ne0xh8nhedh8w27kyke0lp53ut353s06fv3qfegext0eh0ymjpf39tuven09sam30g4vgpfna3rh";

fn refusal(body: Refusal) -> Response<Refusal> {
    Response { status: 500, body }
}

fn quote(request: &str, unit: CurrencyUnit) -> MeltQuote {
    MeltQuote { request: request.to_string(), unit, amount: 777 }
}

fn invoice() -> Invoice {
    Invoice {
        text: "ln-request".to_string(),
        amount_msat: Some(777_000),
        payment_hash: "hash".to_string(),
        canonical: "canonical-request".to_string(),
    }
}

fn melt(unit: CurrencyUnit) -> Melt {
    begin_melt(quote("ln-request", unit), Ok(invoice())).unwrap()
}

fn receipt(total_spent_msats: u64) -> Receipt {
    Receipt { total_spent_msats, payment_preimage: Some("preimage".to_string()) }
}

#[test]
fn melt_begins_where_the_request_is_read() {
    let melt = post_melt_bolt11(quote(REQUEST, CurrencyUnit::Sat)).unwrap();
    assert_eq!(melt.request(), REQUEST);
    assert_eq!(melt.invoice.text, REQUEST);
    assert_eq!(melt.invoice.amount_msat, Some(250_000_000));
    assert_eq!(
        melt.invoice.payment_hash,
        "0001020304050607080900010203040506070809000102030405060708090102"
    );
}

#[test]
fn melt_is_refused_where_the_request_is_not_read() {
    assert_eq!(
        post_melt_bolt11(quote("no request", CurrencyUnit::Sat)),
        Err(refusal(Refusal::InvalidPaymentRequest))
    );
    assert_eq!(
        begin_melt(quote("r", CurrencyUnit::Sat), Err("why".to_string())),
        Err(refusal(Refusal::InvalidPaymentRequest))
    );
}

#[test]
fn own_request_is_settled_internally() {
    let own = StoredQuote { state: MintQuoteState::Unpaid, details: ("id", 3) };
    assert_eq!(
        melt(CurrencyUnit::Other).found(Some(own)),
        MeltRoute::Internal {
            update: StoredQuote { state: MintQuoteState::Paid, details: ("id", 3) },
            settlement: Settlement { preimage: None, amount_spent: 777 },
        }
    );
}

#[test]
fn foreign_request_is_paid_in_full() {
    assert_eq!(
        melt(CurrencyUnit::Sat).found::<()>(None),
        MeltRoute::Lightning {
            order: PaymentOrder { invoice: invoice(), partial_msats: None, max_fee_msats: None },
            pending: PendingPayment { unit: CurrencyUnit::Sat },
        }
    );
}

#[test]
fn payment_is_settled_in_the_unit_of_the_quote() {
    let settled = PendingPayment { unit: CurrencyUnit::Sat }.paid::<()>(Ok(receipt(780_999)));
    assert_eq!(
        settled,
        Ok(Settlement { preimage: Some("preimage".to_string()), amount_spent: 780 })
    );
    let settled = PendingPayment { unit: CurrencyUnit::Msat }.paid::<()>(Ok(receipt(780_999)));
    assert_eq!(settled.unwrap().amount_spent, 780_999);
}

#[test]
fn payment_without_a_preimage_is_settled() {
    let receipt = Receipt { total_spent_msats: 5_000, payment_preimage: None };
    assert_eq!(
        PendingPayment { unit: CurrencyUnit::Sat }.paid::<()>(Ok(receipt)),
        Ok(Settlement { preimage: None, amount_spent: 5 })
    );
}

#[test]
fn failed_payment_is_refused() {
    assert_eq!(
        PendingPayment { unit: CurrencyUnit::Sat }.paid(Err("no route")),
        Err(refusal(Refusal::PaymentFailed))
    );
    assert_eq!(
        PendingPayment { unit: CurrencyUnit::Other }.paid(Err("no route")),
        Err(refusal(Refusal::PaymentFailed))
    );
}

#[test]
fn payment_in_another_unit_is_refused_after_it_was_made() {
    let MeltRoute::Lightning { pending, .. } = melt(CurrencyUnit::Other).found::<()>(None) else {
        panic!("not paid over Lightning");
    };
    assert_eq!(
        pending.paid::<()>(Ok(receipt(1))),
        Err(refusal(Refusal::UnsupportedUnit))
    );
}

#[test]
fn quoted_request_is_melted_for_no_less_than_its_quote() {
    let order = get_melt_bolt11_quote(&REQUEST.to_uppercase(), CurrencyUnit::Sat)
        .unwrap()
        .unwrap()
        .reserve(0, 0);
    let quoted = order.amount;
    let melt = post_melt_bolt11(MeltQuote {
        request: order.request,
        unit: order.unit,
        amount: order.amount,
    })
    .unwrap();
    let MeltRoute::Lightning { order, pending } = melt.found::<()>(None) else {
        panic!("not paid over Lightning");
    };
    assert_eq!(order.invoice.text, REQUEST);
    let spent = pending.paid::<()>(Ok(receipt(250_000_001))).unwrap().amount_spent;
    assert_eq!(quoted, 250_000);
    assert!(spent >= quoted);
}

#[derive(Debug, PartialEq, Eq)]
enum Failed {
    Refused(Refusal),
    Mint(&'static str),
}

fn refused(answer: Response<Refusal>) -> Response<Failed> {
    Response { status: answer.status, body: Failed::Refused(answer.body) }
}

fn by_mint(answer: Response<&'static str>) -> Response<Failed> {
    Response { status: answer.status, body: Failed::Mint(answer.body) }
}

fn run(
    verified: Result<MeltQuote, &'static str>,
    own: Option<StoredQuote<()>>,
    outcome: Result<Receipt, ()>,
    processed: Result<u8, &'static str>,
) -> Result<u8, Response<Failed>> {
    let quote = relay(verified).map_err(by_mint)?;
    let melt = post_melt_bolt11(quote).map_err(refused)?;
    match melt.found(own) {
        MeltRoute::Internal { .. } => {}
        MeltRoute::Lightning { pending, .. } => {
            pending.paid(outcome).map_err(refused)?;
        }
    }
    relay(processed).map_err(by_mint)
}

#[test]
fn melt_is_answered_with_the_first_failure_or_the_value_of_the_mint() {
    let verified = |unit| Ok(quote(REQUEST, unit));
    let failed = |body| Err(Response { status: 500, body });
    let own = || Some(StoredQuote { state: MintQuoteState::Unpaid, details: () });
    let (sat, other) = (CurrencyUnit::Sat, CurrencyUnit::Other);
    assert_eq!(run(verified(sat), None, Ok(receipt(5_000)), Ok(7)), Ok(7));
    assert_eq!(run(verified(other), own(), Err(()), Ok(7)), Ok(7));
    assert_eq!(
        run(verified(sat), own(), Err(()), Err("spent")),
        failed(Failed::Mint("spent"))
    );
    assert_eq!(run(Err("unknown"), None, Err(()), Ok(7)), failed(Failed::Mint("unknown")));
    assert_eq!(
        run(Ok(quote("no request", sat)), own(), Ok(receipt(1)), Ok(7)),
        failed(Failed::Refused(Refusal::InvalidPaymentRequest))
    );
    assert_eq!(
        run(verified(other), None, Err(()), Err("spent")),
        failed(Failed::Refused(Refusal::PaymentFailed))
    );
    assert_eq!(
        run(verified(other), None, Ok(receipt(1)), Err("spent")),
        failed(Failed::Refused(Refusal::UnsupportedUnit))
    );
}
