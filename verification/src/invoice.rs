use std::str::FromStr;

use lightning_invoice::Bolt11Invoice;
use vstd::prelude::*;

verus! {

/// What a BOLT11 payment request says, as far as the server reads it, and the text in which it is
/// written out again.
pub struct Bolt11 {
    pub amount_msat: Option<u64>,
    pub payment_hash: Seq<char>,
    pub canonical: Seq<char>,
}

/// The reading of a text as a BOLT11 payment request, or the reason why the text is not one.
pub uninterp spec fn bolt11(text: Seq<char>) -> Result<Bolt11, Seq<char>>;

/// Reads a text with `Bolt11Invoice::from_str` and hands out the invoice's
/// `amount_milli_satoshis`, its `payment_hash` in hexadecimal text and its own text as `Display`
/// writes it, or the text of the error. Believed of them: they do not panic, and what they give
/// depends on the text alone. Not said is that the text that is written out can be read again: an
/// invoice that names its payee and holds a number with leading zeros is written out without the
/// zeros, while its signature was made over them.
#[verifier::external_body]
fn parse_bolt11(text: &str) -> (r: Result<(Option<u64>, String, String), String>)
    ensures
        match r {
            Ok(read) => bolt11(text@) == Ok::<Bolt11, Seq<char>>(
                (Bolt11 { amount_msat: read.0, payment_hash: read.1@, canonical: read.2@ }),
            ),
            Err(reason) => bolt11(text@) == Err::<Bolt11, Seq<char>>(reason@),
        },
{
    match Bolt11Invoice::from_str(text) {
        Ok(invoice) => Ok(
            (
                invoice.amount_milli_satoshis(),
                invoice.payment_hash().to_string(),
                invoice.to_string(),
            ),
        ),
        Err(error) => Err(error.to_string()),
    }
}

/// A payment request that was read: the text that it was read from, what it says, and the text in
/// which it is written out again. The two texts differ where the first is, say, in capitals.
#[derive(Debug, PartialEq, Eq)]
pub struct Invoice {
    pub text: String,
    pub amount_msat: Option<u64>,
    pub payment_hash: String,
    pub canonical: String,
}

/// An [`Invoice`] by its texts.
pub struct InvoiceView {
    pub text: Seq<char>,
    pub amount_msat: Option<u64>,
    pub payment_hash: Seq<char>,
    pub canonical: Seq<char>,
}

impl View for Invoice {
    type V = InvoiceView;

    open spec fn view(&self) -> InvoiceView {
        InvoiceView {
            text: self.text@,
            amount_msat: self.amount_msat,
            payment_hash: self.payment_hash@,
            canonical: self.canonical@,
        }
    }
}

/// The invoice that a text holds, or the reason why it holds none.
pub open spec fn decoded(text: Seq<char>) -> Result<InvoiceView, Seq<char>> {
    match bolt11(text) {
        Ok(read) => Ok(
            InvoiceView {
                text,
                amount_msat: read.amount_msat,
                payment_hash: read.payment_hash,
                canonical: read.canonical,
            },
        ),
        Err(reason) => Err(reason),
    }
}

/// What reading a payment request gave, by its texts.
pub open spec fn reading(read: Result<Invoice, String>) -> Result<InvoiceView, Seq<char>> {
    match read {
        Ok(invoice) => Ok(invoice@),
        Err(reason) => Err(reason@),
    }
}

/// Reads a payment request.
pub fn decode_invoice(text: &str) -> (r: Result<Invoice, String>)
    ensures
        reading(r) == decoded(text@),
        match r {
            Ok(invoice) => {
                &&& bolt11(text@) matches Ok(read)
                &&& invoice.text@ == text@
                &&& invoice.amount_msat == read.amount_msat
                &&& invoice.payment_hash@ == read.payment_hash
                &&& invoice.canonical@ == read.canonical
            },
            Err(reason) => bolt11(text@) == Err::<Bolt11, Seq<char>>(reason@),
        },
{
    match parse_bolt11(text) {
        Ok((amount_msat, payment_hash, canonical)) => Ok(
            Invoice { text: text.to_owned(), amount_msat, payment_hash, canonical },
        ),
        Err(reason) => Err(reason),
    }
}

/// A text holds an invoice exactly where it reads as a BOLT11 payment request. The invoice has
/// the text, and the amount, the payment hash and the written-out text that the reading gives;
/// where there is no reading, the reason is the reader's.
pub proof fn law_invoice_says_what_was_read(text: Seq<char>)
    ensures
        decoded(text) is Ok <==> bolt11(text) is Ok,
        bolt11(text) matches Ok(read) ==> {
            let invoice = decoded(text)->Ok_0;
            &&& invoice.text == text
            &&& invoice.amount_msat == read.amount_msat
            &&& invoice.payment_hash == read.payment_hash
            &&& invoice.canonical == read.canonical
        },
        bolt11(text) matches Err(reason) ==> decoded(text) == Err::<InvoiceView, Seq<char>>(reason),
{
}

/// Two texts that hold invoices give the same payment hash exactly where they read as payment
/// requests with the same payment hash, and the same amount exactly where these state the same
/// amount.
pub proof fn law_invoices_differ_as_their_readings_do(text: Seq<char>, other: Seq<char>)
    requires
        bolt11(text) is Ok,
        bolt11(other) is Ok,
    ensures
        decoded(text)->Ok_0.payment_hash == decoded(other)->Ok_0.payment_hash <==> bolt11(
            text,
        )->Ok_0.payment_hash == bolt11(other)->Ok_0.payment_hash,
        decoded(text)->Ok_0.amount_msat == decoded(other)->Ok_0.amount_msat <==> bolt11(
            text,
        )->Ok_0.amount_msat == bolt11(other)->Ok_0.amount_msat,
{
}

} // verus!
