use cdk_mintd::amount::{scale, CurrencyUnit};
use cdk_mintd::invoice::{decode_invoice, Invoice};
use cdk_mintd::melt_quote::{get_melt_bolt11_quote, quote_invoice, MeltQuoteOrder};
use cdk_mintd::mint_quote::{
    get_mint_bolt11_quote, InvoiceOrder, MintQuoteOrder, MintQuoteRequest,
};
use cdk_mintd::response::{into_response, relay, ErrorResponse, Refusal, Response};

const WITH_AMOUNT: &str = "lnbc2500u1pvjluezsp5zyg3zyg3zyg3zyg3zyg3zyg3zyg3zyg3zyg3zyg3zyg3zyg3zygspp5qqqsyqcyq5rqwzqfqqqsyqcyq5rqwzqfqqqsyqcyq5rqwzqfqypqdq5xysxxatsyp3k7enxv4jsxqzpu9qrsgquk0rl77nj30yxdy8j9vdx85fkpmdla2087ne0xh8nhedh8w27kyke0lp53ut353s06fv3qfegext0eh0ymjpf39tuven09sam30g4vgpfna3rh";
const WITHOUT_AMOUNT: &str = "lnbc1pvjluezsp5zyg3zyg3zyg3zyg3zyg3zyg3zyg3zyg3zyg3zyg3zyg3zyg3zygspp5qqqsyqcyq5rqwzqfqqqsyqcyq5rqwzqfqqqsyqcyq5rqwzqfqypqdpl2pkx2ctnv5sxxmmwwd5kgetjypeh2ursdae8g6twvus8g6rfwvs8qun0dfjkxaq9qrsgq357wnc5r2ueh7ck6q93dj32dlqnls087fxdwk8qakdyafkq3yap9us6v52vjjsrvywa6rt52cm9r9zqt8r2t7mlcwspyetp5h2tztugp9lfyql";
const BAD_SIGNATURE: &str = "lnbc2500u1pvjluezpp5qqqsyqcyq5rqwzqfqqqsyqcyq5rqwzqfqqqsyqcyq5rqwzqfqypqdq5xysxxatsyp3k7enxv4jsxqzpusp5zyg3zyg3zyg3zyg3zyg3zyg3zyg3zyg3zyg3zyg3zyg3zyg3zygs9qrsgqwgt7mcn5yqw3yx0w94pswkpq6j9uh6xfqqqtsk4tnarugeektd4hg5975x9am52rz4qskukxdmjemg92vvqz8nvmsye63r5ykel43pgz7zq0g2";
const PAYMENT_HASH: &str = "0001020304050607080900010203040506070809000102030405060708090102";

fn refusal(body: Refusal) -> Response<Refusal> {
    Response { status: 500, body }
}

fn invoice(amount_msat: Option<u64>) -> Invoice {
    Invoice {
        text: "ln-request".to_string(),
        amount_msat,
        payment_hash: "hash".to_string(),
        canonical: "canonical-request".to_string(),
    }
}

#[test]
fn scaling_divides_satoshis_and_keeps_millisatoshis() {
    assert_eq!(scale(CurrencyUnit::Sat, 2_999), Some(2));
    assert_eq!(scale(CurrencyUnit::Sat, 999), Some(0));
    assert_eq!(scale(CurrencyUnit::Sat, u64::MAX), Some(18_446_744_073_709_551));
    assert_eq!(scale(CurrencyUnit::Msat, 2_999), Some(2_999));
    assert_eq!(scale(CurrencyUnit::Other, 2_999), None);
}

#[test]
fn scaling_keeps_the_order_of_amounts() {
    assert!(scale(CurrencyUnit::Sat, 1_999) <= scale(CurrencyUnit::Sat, 2_000));
    assert!(scale(CurrencyUnit::Msat, 1_999) <= scale(CurrencyUnit::Msat, 2_000));
}

#[test]
fn failures_are_answered_with_a_server_error() {
    let answer = into_response("quote not found");
    assert_eq!(answer.status, 500);
    assert_eq!(answer.body, "quote not found");
    assert_eq!(relay::<u8, &str>(Ok(7)), Ok(7));
    assert_eq!(relay::<u8, &str>(Err("e")), Err(Response { status: 500, body: "e" }));
}

#[test]
fn errors_that_are_sent_alike_are_answered_alike() {
    let sent = |error: (&str, u8)| error.0.to_string();
    assert_eq!(
        into_response(sent(("locked", 1))),
        into_response(sent(("locked", 2)))
    );
}

#[test]
fn only_a_failed_payment_is_worded_here() {
    assert_eq!(
        Refusal::PaymentFailed.report(),
        Some(ErrorResponse {
            code: 999,
            error: Some("Could not pay ln invoice".to_string()),
            detail: None,
        })
    );
    assert_eq!(Refusal::UnsupportedUnit.report(), None);
    assert_eq!(Refusal::InvoiceAmountUndefined.report(), None);
    assert_eq!(Refusal::InvalidPaymentRequest.report(), None);
}

#[test]
fn mint_quote_in_satoshis() {
    let payload = MintQuoteRequest { amount: 21_500, unit: CurrencyUnit::Sat };
    let (order, awaiting) = get_mint_bolt11_quote(payload, 1_700_000_000).unwrap();
    assert_eq!(
        order,
        InvoiceOrder { amount: 21, description: String::new(), expiry: 1_700_001_800 }
    );
    let quote = awaiting
        .invoiced::<()>("https://mint.example", Ok("lnbc1".to_string()), 1_700_000_002)
        .unwrap();
    assert_eq!(
        quote,
        MintQuoteOrder {
            mint_url: "https://mint.example".to_string(),
            request: "lnbc1".to_string(),
            unit: CurrencyUnit::Sat,
            amount: 21_500,
            expiry: 1_700_001_802,
        }
    );
    assert!(quote.expiry >= order.expiry);
}

#[test]
fn mint_quote_in_millisatoshis() {
    let payload = MintQuoteRequest { amount: 21_500, unit: CurrencyUnit::Msat };
    let (order, awaiting) = get_mint_bolt11_quote(payload, 0).unwrap();
    assert_eq!(order.amount, 21_500);
    assert_eq!(order.expiry, 1_800);
    let quote = awaiting.invoiced::<()>("m", Ok("r".to_string()), 5).unwrap();
    assert_eq!(quote.unit, CurrencyUnit::Msat);
    assert_eq!(quote.amount, 21_500);
    assert_eq!(quote.expiry, 1_805);
}

#[test]
fn mint_quote_refuses_other_units() {
    let payload = MintQuoteRequest { amount: 1, unit: CurrencyUnit::Other };
    assert_eq!(
        get_mint_bolt11_quote(payload, u64::MAX),
        Err(refusal(Refusal::UnsupportedUnit))
    );
}

#[test]
fn mint_quote_refused_where_no_invoice_is_made() {
    let payload = MintQuoteRequest { amount: 1, unit: CurrencyUnit::Sat };
    let (_, awaiting) = get_mint_bolt11_quote(payload, 0).unwrap();
    assert_eq!(
        awaiting.invoiced("m", Err("node is down"), u64::MAX),
        Err(refusal(Refusal::InvalidPaymentRequest))
    );
}

#[test]
fn latest_time_that_a_quote_can_begin_at() {
    let payload = MintQuoteRequest { amount: 1, unit: CurrencyUnit::Sat };
    let (order, _) = get_mint_bolt11_quote(payload, u64::MAX - 1_800).unwrap();
    assert_eq!(order.expiry, u64::MAX);
}

#[test]
fn invoice_is_read() {
    assert_eq!(
        decode_invoice(WITH_AMOUNT),
        Ok(Invoice {
            text: WITH_AMOUNT.to_string(),
            amount_msat: Some(250_000_000),
            payment_hash: PAYMENT_HASH.to_string(),
            canonical: WITH_AMOUNT.to_string(),
        })
    );
}

#[test]
fn invoice_without_an_amount_is_read() {
    let invoice = decode_invoice(WITHOUT_AMOUNT).unwrap();
    assert_eq!(invoice.amount_msat, None);
    assert_eq!(invoice.payment_hash, PAYMENT_HASH);
}

#[test]
fn what_is_no_invoice_gives_the_reason() {
    assert_eq!(
        decode_invoice(BAD_SIGNATURE),
        Err("The invoice's signature is invalid".to_string())
    );
    assert_eq!(decode_invoice(""), Err("Invalid bech32: missing human-readable separator, \"1\"".to_string()));
    assert!(decode_invoice("lnbc").is_err());
}

#[test]
fn melt_quote_of_a_payment_request() {
    let awaiting = get_melt_bolt11_quote(WITH_AMOUNT, CurrencyUnit::Sat).unwrap().unwrap();
    assert_eq!(awaiting.amount, 250_000);
    assert_eq!(
        awaiting.reserve(12, 1_000),
        MeltQuoteOrder {
            request: WITH_AMOUNT.to_string(),
            unit: CurrencyUnit::Sat,
            amount: 250_000,
            fee_reserve: 12,
            expiry: 2_800,
        }
    );
}

#[test]
fn capitals_are_read_and_written_out_in_small_letters() {
    let capitals = WITH_AMOUNT.to_uppercase();
    let invoice = decode_invoice(&capitals).unwrap();
    assert_eq!(invoice.text, capitals);
    assert_eq!(invoice.canonical, WITH_AMOUNT);
    assert_eq!(invoice.amount_msat, Some(250_000_000));
    let order = get_melt_bolt11_quote(&capitals, CurrencyUnit::Msat)
        .unwrap()
        .unwrap()
        .reserve(0, 0);
    assert_eq!(order.request, WITH_AMOUNT);
    assert_eq!(order.amount, 250_000_000);
}

#[test]
fn larger_invoice_is_quoted_no_lower() {
    for unit in [CurrencyUnit::Sat, CurrencyUnit::Msat] {
        let smaller = quote_invoice(invoice(Some(1_999)), unit).unwrap();
        let larger = quote_invoice(invoice(Some(2_000)), unit).unwrap();
        assert!(smaller.amount <= larger.amount);
    }
}

#[test]
fn melt_quote_of_no_payment_request() {
    assert_eq!(
        get_melt_bolt11_quote(BAD_SIGNATURE, CurrencyUnit::Sat),
        Err("The invoice's signature is invalid".to_string())
    );
}

#[test]
fn melt_quote_needs_an_amount() {
    assert_eq!(
        get_melt_bolt11_quote(WITHOUT_AMOUNT, CurrencyUnit::Msat),
        Ok(Err(refusal(Refusal::InvoiceAmountUndefined)))
    );
}

#[test]
fn melt_quote_amounts() {
    let quote = quote_invoice(invoice(Some(1_999)), CurrencyUnit::Sat).unwrap();
    assert_eq!((quote.request.as_str(), quote.amount), ("canonical-request", 1));
    let quote = quote_invoice(invoice(Some(1_999)), CurrencyUnit::Msat).unwrap();
    assert_eq!(quote.amount, 1_999);
    assert_eq!(quote.unit, CurrencyUnit::Msat);
}

#[test]
fn melt_quote_refuses_the_unit_before_the_missing_amount() {
    assert_eq!(
        quote_invoice(invoice(None), CurrencyUnit::Other),
        Err(refusal(Refusal::UnsupportedUnit))
    );
    assert_eq!(
        quote_invoice(invoice(Some(5)), CurrencyUnit::Other),
        Err(refusal(Refusal::UnsupportedUnit))
    );
    assert_eq!(
        quote_invoice(invoice(None), CurrencyUnit::Sat),
        Err(refusal(Refusal::InvoiceAmountUndefined))
    );
}

#[test]
fn larger_invoice_reserves_no_less() {
    let reserved = |amount_msat, percent: u64| {
        let awaiting = quote_invoice(invoice(Some(amount_msat)), CurrencyUnit::Sat).unwrap();
        let fee = awaiting.amount * percent / 100;
        let order = awaiting.reserve(fee, 1_700_000_000);
        (order.amount, order.fee_reserve)
    };
    assert_eq!(reserved(199_999, 2), (199, 3));
    assert_eq!(reserved(250_000, 2), (250, 5));
    assert_eq!(reserved(199_999, 0), (199, 0));
    assert_eq!(reserved(250_000, 0), (250, 0));
}

#[test]
fn quotes_are_answered_with_the_first_failure_or_the_value_of_the_mint() {
    let mint_quote = |unit, made: Result<String, ()>, stored: Result<u8, &'static str>| {
        let payload = MintQuoteRequest { amount: 1, unit };
        let (_, awaiting) = get_mint_bolt11_quote(payload, 0).map_err(|a| (a.status, 'r'))?;
        awaiting.invoiced("https://mint.example", made, 0).map_err(|a| (a.status, 'i'))?;
        relay(stored).map_err(|a| (a.status, 'm'))
    };
    let made = || Ok("ln-request".to_string());
    let (sat, other) = (CurrencyUnit::Sat, CurrencyUnit::Other);
    assert_eq!(mint_quote(sat, made(), Ok(7)), Ok(7));
    assert_eq!(mint_quote(sat, made(), Err("full")), Err((500, 'm')));
    assert_eq!(mint_quote(sat, Err(()), Err("full")), Err((500, 'i')));
    assert_eq!(mint_quote(other, Err(()), Err("full")), Err((500, 'r')));
    let melt_quote = |unit, stored: Result<u8, &'static str>| {
        let awaiting = quote_invoice(invoice(Some(5_000)), unit).map_err(|a| (a.status, 'r'))?;
        awaiting.reserve(1, 0);
        relay(stored).map_err(|a| (a.status, 'm'))
    };
    assert_eq!(melt_quote(sat, Ok(7)), Ok(7));
    assert_eq!(melt_quote(sat, Err("full")), Err((500, 'm')));
    assert_eq!(melt_quote(other, Ok(7)), Err((500, 'r')));
}
