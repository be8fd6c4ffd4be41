//! The routes of the mint's HTTP interface, and the watch for invoices that are paid.
use vstd::prelude::*;

use crate::quote_state::{MintQuoteState, StateUpdate, StateUpdateView};

verus! {

/// An HTTP method.
#[derive(Clone, Copy, Debug, PartialEq, Eq, Structural)]
pub enum Method {
    Get,
    Post,
}

/// What a request asks of the mint.
#[derive(Clone, Copy, Debug, PartialEq, Eq, Structural)]
pub enum Endpoint {
    Keys,
    Keysets,
    KeysetPubkeys,
    Swap,
    MintQuote,
    CheckMintQuote,
    Mint,
    MeltQuote,
    CheckMeltQuote,
    Melt,
    CheckState,
    Info,
    Restore,
}

/// A route: requests with this method and path are the endpoint's. A part of the path that begins
/// with a colon is a parameter.
#[derive(Clone, Copy, Debug, PartialEq, Eq)]
pub struct Route {
    pub method: Method,
    pub path: &'static str,
    pub endpoint: Endpoint,
}

/// A [`Route`] by its path's text.
pub struct RouteView {
    pub method: Method,
    pub path: Seq<char>,
    pub endpoint: Endpoint,
}

impl View for Route {
    type V = RouteView;

    open spec fn view(&self) -> RouteView {
        RouteView { method: self.method, path: self.path@, endpoint: self.endpoint }
    }
}

/// The mint's HTTP interface: the URL under which it is known, and its routes.
#[derive(Debug, PartialEq, Eq)]
pub struct MintRouter {
    pub mint_url: String,
    pub routes: Vec<Route>,
}

/// The method by which an endpoint is reached.
pub open spec fn method_of(endpoint: Endpoint) -> Method {
    match endpoint {
        Endpoint::Keys => Method::Get,
        Endpoint::Keysets => Method::Get,
        Endpoint::KeysetPubkeys => Method::Get,
        Endpoint::Swap => Method::Post,
        Endpoint::MintQuote => Method::Post,
        Endpoint::CheckMintQuote => Method::Get,
        Endpoint::Mint => Method::Post,
        Endpoint::MeltQuote => Method::Post,
        Endpoint::CheckMeltQuote => Method::Get,
        Endpoint::Melt => Method::Post,
        Endpoint::CheckState => Method::Post,
        Endpoint::Info => Method::Get,
        Endpoint::Restore => Method::Post,
    }
}

/// The path of an endpoint.
pub open spec fn path_of(endpoint: Endpoint) -> Seq<char> {
    match endpoint {
        Endpoint::Keys => "/keys"@,
        Endpoint::Keysets => "/keysets"@,
        Endpoint::KeysetPubkeys => "/keys/:keyset_id"@,
        Endpoint::Swap => "/swap"@,
        Endpoint::MintQuote => "/mint/quote/bolt11"@,
        Endpoint::CheckMintQuote => "/mint/quote/bolt11/:quote_id"@,
        Endpoint::Mint => "/mint/bolt11"@,
        Endpoint::MeltQuote => "/melt/quote/bolt11"@,
        Endpoint::CheckMeltQuote => "/melt/quote/bolt11/:quote_id"@,
        Endpoint::Melt => "/melt/bolt11"@,
        Endpoint::CheckState => "/checkstate"@,
        Endpoint::Info => "/info"@,
        Endpoint::Restore => "/restore"@,
    }
}

/// The route to an endpoint.
pub open spec fn route_to(endpoint: Endpoint) -> RouteView {
    RouteView { method: method_of(endpoint), path: path_of(endpoint), endpoint }
}

/// The endpoints in the order in which their routes are laid out.
pub open spec fn endpoints() -> Seq<Endpoint> {
    seq![
        Endpoint::Keys,
        Endpoint::Keysets,
        Endpoint::KeysetPubkeys,
        Endpoint::Swap,
        Endpoint::MintQuote,
        Endpoint::CheckMintQuote,
        Endpoint::Mint,
        Endpoint::MeltQuote,
        Endpoint::CheckMeltQuote,
        Endpoint::Melt,
        Endpoint::CheckState,
        Endpoint::Info,
        Endpoint::Restore,
    ]
}

/// Routes by their texts.
pub open spec fn route_views(routes: Seq<Route>) -> Seq<RouteView> {
    routes.map_values(|route: Route| route@)
}

fn route(method: Method, path: &'static str, endpoint: Endpoint) -> (r: Route)
    ensures
        r == (Route { method, path, endpoint }),
{
    Route { method, path, endpoint }
}

/// Lays out the mint's HTTP interface.
pub fn create_mint_router(mint_url: &str) -> (r: MintRouter)
    ensures
        r.mint_url@ == mint_url@,
        route_views(r.routes@) == endpoints().map_values(|endpoint: Endpoint| route_to(endpoint)),
        r.routes.len() == endpoints().len(),
        forall|i: int|
            0 <= i < r.routes.len() ==> {
                &&& (#[trigger] r.routes[i]).endpoint == endpoints()[i]
                &&& r.routes[i].method == method_of(endpoints()[i])
                &&& r.routes[i].path@ == path_of(endpoints()[i])
            },
{
    let mut routes: Vec<Route> = Vec::new();
    routes.push(route(Method::Get, "/keys", Endpoint::Keys));
    routes.push(route(Method::Get, "/keysets", Endpoint::Keysets));
    routes.push(route(Method::Get, "/keys/:keyset_id", Endpoint::KeysetPubkeys));
    routes.push(route(Method::Post, "/swap", Endpoint::Swap));
    routes.push(route(Method::Post, "/mint/quote/bolt11", Endpoint::MintQuote));
    routes.push(route(Method::Get, "/mint/quote/bolt11/:quote_id", Endpoint::CheckMintQuote));
    routes.push(route(Method::Post, "/mint/bolt11", Endpoint::Mint));
    routes.push(route(Method::Post, "/melt/quote/bolt11", Endpoint::MeltQuote));
    routes.push(route(Method::Get, "/melt/quote/bolt11/:quote_id", Endpoint::CheckMeltQuote));
    routes.push(route(Method::Post, "/melt/bolt11", Endpoint::Melt));
    routes.push(route(Method::Post, "/checkstate", Endpoint::CheckState));
    routes.push(route(Method::Get, "/info", Endpoint::Info));
    routes.push(route(Method::Post, "/restore", Endpoint::Restore));
    assert(route_views(routes@) =~= endpoints().map_values(
        |endpoint: Endpoint| route_to(endpoint),
    ));
    MintRouter { mint_url: mint_url.to_owned(), routes }
}

/// Each endpoint is routed exactly once.
pub proof fn law_each_endpoint_is_routed_once(endpoint: Endpoint)
    ensures
        endpoints().contains(endpoint),
        endpoints().no_duplicates(),
{
    let all = endpoints();
    assert(all[0] is Keys && all[1] is Keysets && all[2] is KeysetPubkeys && all[3] is Swap
        && all[4] is MintQuote && all[5] is CheckMintQuote && all[6] is Mint && all[7] is MeltQuote
        && all[8] is CheckMeltQuote && all[9] is Melt && all[10] is CheckState && all[11] is Info
        && all[12] is Restore);
}

/// No two endpoints share a path.
pub proof fn law_paths_are_distinct(a: Endpoint, b: Endpoint)
    requires
        a != b,
    ensures
        path_of(a) != path_of(b),
{
    reveal_strlit("/keys");
    reveal_strlit("/keysets");
    reveal_strlit("/keys/:keyset_id");
    reveal_strlit("/swap");
    reveal_strlit("/mint/quote/bolt11");
    reveal_strlit("/mint/quote/bolt11/:quote_id");
    reveal_strlit("/mint/bolt11");
    reveal_strlit("/melt/quote/bolt11");
    reveal_strlit("/melt/quote/bolt11/:quote_id");
    reveal_strlit("/melt/bolt11");
    reveal_strlit("/checkstate");
    reveal_strlit("/info");
    reveal_strlit("/restore");
    assert(path_of(a).len() == path_of(b).len() ==> path_of(a)[1] != path_of(b)[1] || path_of(a)[2]
        != path_of(b)[2]);
}

/// What became of a payment, as far as the mint's quotes go.
#[derive(Debug, PartialEq, Eq)]
pub enum PaidInvoice<E> {
    /// The payment was for no quote of the mint's.
    NoQuote,
    /// The payment was for a quote of the mint's: it is to be marked as paid.
    MarkPaid(StateUpdate),
    /// The mint could not be asked.
    Failed(E),
}

/// A [`PaidInvoice`] by its texts.
pub enum PaidInvoiceView<E> {
    NoQuote,
    MarkPaid(StateUpdateView),
    Failed(E),
}

impl<E> View for PaidInvoice<E> {
    type V = PaidInvoiceView<E>;

    open spec fn view(&self) -> PaidInvoiceView<E> {
        match *self {
            PaidInvoice::NoQuote => PaidInvoiceView::NoQuote,
            PaidInvoice::MarkPaid(update) => PaidInvoiceView::MarkPaid(update@),
            PaidInvoice::Failed(error) => PaidInvoiceView::Failed(error),
        }
    }
}

/// The ids that a search for a quote gave, by their texts.
pub open spec fn search<E>(found: Result<Option<String>, E>) -> Result<Option<Seq<char>>, E> {
    match found {
        Ok(id) => Ok(crate::response::text_of(id)),
        Err(error) => Err(error),
    }
}

/// What is due when an invoice is paid and the mint was asked for the quote of its payment
/// request: the quote, if there is one, becomes paid.
pub open spec fn due<E>(found: Result<Option<Seq<char>>, E>) -> PaidInvoiceView<E> {
    match found {
        Ok(Some(quote_id)) => PaidInvoiceView::MarkPaid(
            StateUpdateView { quote_id, state: MintQuoteState::Paid },
        ),
        Ok(None) => PaidInvoiceView::NoQuote,
        Err(error) => PaidInvoiceView::Failed(error),
    }
}

/// Says what is due when an invoice is paid, given the id of the quote that the mint found for
/// its payment request.
pub fn handle_paid_invoice<E>(found: Result<Option<String>, E>) -> (r: PaidInvoice<E>)
    ensures
        r@ == due(search(found)),
        match found {
            Ok(Some(quote_id)) => {
                &&& r matches PaidInvoice::MarkPaid(update)
                &&& update.quote_id@ == quote_id@
                &&& update.state is Paid
            },
            Ok(None) => r is NoQuote,
            Err(error) => r matches PaidInvoice::Failed(why) && why == error,
        },
{
    match found {
        Ok(Some(quote_id)) => PaidInvoice::MarkPaid(
            StateUpdate { quote_id, state: MintQuoteState::Paid },
        ),
        Ok(None) => PaidInvoice::NoQuote,
        Err(error) => PaidInvoice::Failed(error),
    }
}

/// A paid invoice marks the very quote that the mint found for it, as paid; it marks none where the
/// mint found none, and reports the mint's error where the mint could not be asked.
pub proof fn law_found_quote_is_marked<E>(found: Result<Option<Seq<char>>, E>)
    ensures
        match due(found) {
            PaidInvoiceView::MarkPaid(update) => {
                &&& found == Ok::<Option<Seq<char>>, E>(Some(update.quote_id))
                &&& update.state == MintQuoteState::Paid
            },
            PaidInvoiceView::NoQuote => found == Ok::<Option<Seq<char>>, E>(None),
            PaidInvoiceView::Failed(error) => found == Err::<Option<Seq<char>>, E>(error),
        },
{
}

/// Once the update for a paid invoice is made, the quote is paid and every other quote is as
/// before; to make the update again changes nothing.
pub proof fn law_paid_quote_becomes_paid<E>(
    store: Map<Seq<char>, MintQuoteState>,
    quote_id: Seq<char>,
    other: Seq<char>,
)
    requires
        other != quote_id,
    ensures
        due::<E>(Ok(Some(quote_id))) is MarkPaid,
        ({
            let update = due::<E>(Ok(Some(quote_id)))->MarkPaid_0;
            let after = crate::quote_state::updated(store, update);
            &&& after.dom().contains(quote_id) && after[quote_id] is Paid
            &&& after.dom().contains(other) == store.dom().contains(other)
            &&& store.dom().contains(other) ==> after[other] == store[other]
            &&& crate::quote_state::updated(after, update) == after
        }),
{
    let update = due::<E>(Ok(Some(quote_id)))->MarkPaid_0;
    let after = crate::quote_state::updated(store, update);
    assert(crate::quote_state::updated(after, update) =~= after);
}

/// What happens while paid invoices are watched for.
#[derive(Debug, PartialEq, Eq)]
pub enum WatchEvent<E> {
    /// The watch begins.
    Begun,
    /// The Lightning node opened a stream of paid invoices.
    Opened,
    /// The stream gave an invoice, by its text.
    Paid(String),
    /// The paid invoice was handled.
    Handled(Result<(), E>),
    /// The stream came to its end.
    Ended,
}

/// What the watch does next.
#[derive(Debug, PartialEq, Eq)]
pub enum WatchAction<E> {
    /// Open a stream of paid invoices.
    Open,
    /// Wait for the next invoice of the stream.
    Next,
    /// Handle a paid invoice.
    Handle(String),
    /// Log the error, then wait for the next invoice of the stream.
    WarnAndNext(E),
}

/// What the watch does after an event. A stream that ends is opened anew, and a payment that could
/// not be handled is logged and passed over. A stream that cannot be opened is no event: it ends
/// the watch.
pub open spec fn watched<E>(event: WatchEvent<E>) -> WatchAction<E> {
    match event {
        WatchEvent::Begun => WatchAction::Open,
        WatchEvent::Opened => WatchAction::Next,
        WatchEvent::Paid(request) => WatchAction::Handle(request),
        WatchEvent::Handled(Ok(())) => WatchAction::Next,
        WatchEvent::Handled(Err(error)) => WatchAction::WarnAndNext(error),
        WatchEvent::Ended => WatchAction::Open,
    }
}

/// Says what the watch for paid invoices does after an event.
pub fn watch<E>(event: WatchEvent<E>) -> (r: WatchAction<E>)
    ensures
        r == watched(event),
        match event {
            WatchEvent::Begun => r is Open,
            WatchEvent::Opened => r is Next,
            WatchEvent::Paid(request) => r == WatchAction::<E>::Handle(request),
            WatchEvent::Handled(Ok(())) => r is Next,
            WatchEvent::Handled(Err(error)) => r == WatchAction::WarnAndNext(error),
            WatchEvent::Ended => r is Open,
        },
{
    match event {
        WatchEvent::Begun => WatchAction::Open,
        WatchEvent::Opened => WatchAction::Next,
        WatchEvent::Paid(request) => WatchAction::Handle(request),
        WatchEvent::Handled(Ok(())) => WatchAction::Next,
        WatchEvent::Handled(Err(error)) => WatchAction::WarnAndNext(error),
        WatchEvent::Ended => WatchAction::Open,
    }
}

/// The watch opens a stream exactly when it begins and when a stream has ended; it handles exactly
/// the invoice that a stream gives; and it logs exactly the error that handling one gives.
pub proof fn law_watch_follows_its_stream<E>(event: WatchEvent<E>)
    ensures
        watched(event) is Open <==> event is Begun || event is Ended,
        watched(event) is Handle <==> event is Paid,
        event matches WatchEvent::Paid(request) ==> watched(event) == WatchAction::<E>::Handle(
            request,
        ),
        watched(event) is WarnAndNext <==> event matches WatchEvent::Handled(Err(_)),
        event matches WatchEvent::Handled(Err(error)) ==> watched(event)
            == WatchAction::WarnAndNext(error),
{
}

/// How many steps are left before the watch takes the next invoice of a stream or sees its end.
pub open spec fn steps_left<E>(event: WatchEvent<E>) -> nat {
    match event {
        WatchEvent::Paid(_) => 2,
        WatchEvent::Opened => 1,
        WatchEvent::Handled(_) => 1,
        _ => 0,
    }
}

/// What the watch does from an event on, until it opens a stream: `stream` holds the invoices that
/// the open stream still gives, and `results` what handling them gives, one after the other.
pub open spec fn watch_run<E>(
    event: WatchEvent<E>,
    stream: Seq<String>,
    results: Seq<Result<(), E>>,
) -> Seq<WatchAction<E>>
    decreases stream.len(), steps_left(event),
{
    let action = watched(event);
    match action {
        WatchAction::Open => seq![action],
        WatchAction::Handle(_) => seq![action] + watch_run(
            WatchEvent::Handled(results[0]),
            stream,
            results.skip(1),
        ),
        _ => if stream.len() == 0 {
            seq![action] + watch_run(WatchEvent::Ended, stream, results)
        } else {
            seq![action] + watch_run(WatchEvent::Paid(stream[0]), stream.skip(1), results)
        },
    }
}

/// The invoices that are handed on to be handled.
pub open spec fn handed_on<E>(actions: Seq<WatchAction<E>>) -> Seq<String>
    decreases actions.len(),
{
    if actions.len() == 0 {
        seq![]
    } else {
        let later = handed_on(actions.skip(1));
        match actions[0] {
            WatchAction::Handle(request) => seq![request] + later,
            _ => later,
        }
    }
}

/// The errors that are logged.
pub open spec fn logged<E>(actions: Seq<WatchAction<E>>) -> Seq<E>
    decreases actions.len(),
{
    if actions.len() == 0 {
        seq![]
    } else {
        let later = logged(actions.skip(1));
        match actions[0] {
            WatchAction::WarnAndNext(error) => seq![error] + later,
            _ => later,
        }
    }
}

/// The errors among the first `n` results.
pub open spec fn errors<E>(results: Seq<Result<(), E>>, n: nat) -> Seq<E>
    decreases n,
{
    if n == 0 {
        seq![]
    } else {
        let later = errors(results.skip(1), (n - 1) as nat);
        match results[0] {
            Ok(()) => later,
            Err(error) => seq![error] + later,
        }
    }
}

/// The error that an event tells of.
spec fn error_of<E>(event: WatchEvent<E>) -> Seq<E> {
    match event {
        WatchEvent::Handled(Err(error)) => seq![error],
        _ => seq![],
    }
}

/// What a run does first and what it does after that, taken together.
proof fn lemma_first_action<E>(action: WatchAction<E>, later: Seq<WatchAction<E>>)
    ensures
        (seq![action] + later).skip(1) == later,
        handed_on(seq![action] + later) == match action {
            WatchAction::Handle(request) => seq![request] + handed_on(later),
            _ => handed_on(later),
        },
        logged(seq![action] + later) == match action {
            WatchAction::WarnAndNext(error) => seq![error] + logged(later),
            _ => logged(later),
        },
{
    assert((seq![action] + later).skip(1) =~= later);
}

proof fn lemma_watch_run<E>(
    event: WatchEvent<E>,
    stream: Seq<String>,
    results: Seq<Result<(), E>>,
)
    requires
        event is Opened || event is Handled,
        stream.len() <= results.len(),
    ensures
        ({
            let actions = watch_run(event, stream, results);
            &&& handed_on(actions) == stream
            &&& logged(actions) == error_of(event) + errors(results, stream.len())
            &&& actions.len() > 0
            &&& actions.last() is Open
            &&& forall|i: int| 0 <= i < actions.len() - 1 ==> !(#[trigger] actions[i] is Open)
        }),
    decreases stream.len(),
{
    let action = watched(event);
    if stream.len() == 0 {
        let end = watch_run(WatchEvent::Ended, stream, results);
        let last: Seq<WatchAction<E>> = seq![];
        assert(end =~= seq![WatchAction::Open] + last);
        lemma_first_action(WatchAction::Open, last);
        lemma_first_action(action, end);
        assert(handed_on(watch_run(event, stream, results)) =~= stream);
        assert(logged(watch_run(event, stream, results)) =~= error_of(event) + errors(results, 0));
    } else {
        let later = watch_run(
            WatchEvent::Handled(results[0]),
            stream.skip(1),
            results.skip(1),
        );
        lemma_watch_run(WatchEvent::Handled(results[0]), stream.skip(1), results.skip(1));
        let handle = watch_run(WatchEvent::Paid(stream[0]), stream.skip(1), results);
        lemma_first_action(WatchAction::Handle(stream[0]), later);
        lemma_first_action(action, handle);
        let actions = watch_run(event, stream, results);
        assert(handed_on(actions) =~= stream);
        assert(logged(actions) =~= error_of(event) + errors(results, stream.len()));
        assert forall|i: int| 0 <= i < actions.len() - 1 implies !(#[trigger] actions[i]
            is Open) by {
            if i >= 2 {
                assert(actions[i] == later[i - 2]);
            }
        }
    }
}

/// Once a stream is open, the invoices that are handed on are exactly those of the stream, each
/// once and in order, whatever handling them gives; exactly the errors that it gives are logged,
/// in order; and after the end of the stream, and not before, a stream is opened anew.
pub proof fn law_every_paid_invoice_is_handed_on<E>(
    stream: Seq<String>,
    results: Seq<Result<(), E>>,
)
    requires
        stream.len() == results.len(),
    ensures
        ({
            let actions = watch_run(WatchEvent::Opened, stream, results);
            &&& handed_on(actions) == stream
            &&& logged(actions) == errors(results, results.len())
            &&& actions.len() > 0
            &&& actions.last() == watched(WatchEvent::<E>::Ended)
            &&& actions.last() is Open
            &&& forall|i: int| 0 <= i < actions.len() - 1 ==> !(#[trigger] actions[i] is Open)
        }),
{
    lemma_watch_run(WatchEvent::Opened, stream, results);
    assert(error_of(WatchEvent::<E>::Opened) + errors(results, stream.len()) =~= errors(
        results,
        stream.len(),
    ));
}

} // verus!
