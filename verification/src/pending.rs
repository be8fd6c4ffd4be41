//! The check of pending mint quotes when the server starts.
//!
//! While the server is down its Lightning node may be paid. The check asks the node for the
//! status of each pending quote's invoice and brings the mint's state of the quote up to it.
use vstd::prelude::*;

use crate::invoice::{decode_invoice, Invoice, InvoiceView};
use crate::quote_state::{MintQuoteState, StateUpdate, StateUpdateView};

verus! {

/// A mint quote that is pending.
#[derive(Debug, PartialEq, Eq)]
pub struct PendingQuote {
    pub id: String,
    pub request: String,
    pub state: MintQuoteState,
}

/// A [`PendingQuote`] by its texts.
pub struct PendingQuoteView {
    pub id: Seq<char>,
    pub request: Seq<char>,
    pub state: MintQuoteState,
}

impl View for PendingQuote {
    type V = PendingQuoteView;

    open spec fn view(&self) -> PendingQuoteView {
        PendingQuoteView { id: self.id@, request: self.request@, state: self.state }
    }
}

/// Quotes by their texts.
pub open spec fn quote_views(quotes: Seq<PendingQuote>) -> Seq<PendingQuoteView> {
    quotes.map_values(|quote: PendingQuote| quote@)
}

/// A check under way: the quotes that are still to be checked, in order.
#[derive(Debug, PartialEq, Eq)]
pub struct PendingCheck {
    quotes: Vec<PendingQuote>,
    next: usize,
}

impl View for PendingCheck {
    type V = Seq<PendingQuoteView>;

    closed spec fn view(&self) -> Seq<PendingQuoteView> {
        quote_views(self.quotes@).skip(self.next as int)
    }
}

/// A check that waits for the status of the first of its quotes.
#[derive(Debug, PartialEq, Eq)]
pub struct AwaitingStatus {
    quotes: Vec<PendingQuote>,
    next: usize,
}

impl View for AwaitingStatus {
    type V = Seq<PendingQuoteView>;

    closed spec fn view(&self) -> Seq<PendingQuoteView> {
        quote_views(self.quotes@).skip(self.next as int)
    }
}

/// A check that waits for the update of a quote's state to be made. It holds the quotes that come
/// after that one.
#[derive(Debug, PartialEq, Eq)]
pub struct AwaitingUpdate {
    rest: PendingCheck,
}

impl View for AwaitingUpdate {
    type V = Seq<PendingQuoteView>;

    closed spec fn view(&self) -> Seq<PendingQuoteView> {
        self.rest@
    }
}

/// What a check does next.
#[derive(Debug, PartialEq, Eq)]
pub enum PendingStep {
    /// Every quote was checked.
    Done,
    /// The payment request of the next quote cannot be read; the check ends with the reason.
    Unreadable(String),
    /// Ask the Lightning node for the status of the next quote's invoice.
    CheckStatus { payment_hash: String, awaiting: AwaitingStatus },
}

/// A [`PendingStep`] by its texts.
pub enum PendingStepView {
    Done,
    Unreadable(Seq<char>),
    CheckStatus { payment_hash: Seq<char>, awaiting: Seq<PendingQuoteView> },
}

impl View for PendingStep {
    type V = PendingStepView;

    open spec fn view(&self) -> PendingStepView {
        match *self {
            PendingStep::Done => PendingStepView::Done,
            PendingStep::Unreadable(reason) => PendingStepView::Unreadable(reason@),
            PendingStep::CheckStatus { payment_hash, awaiting } => PendingStepView::CheckStatus {
                payment_hash: payment_hash@,
                awaiting: awaiting@,
            },
        }
    }
}

/// What a check does once the Lightning node has answered.
#[derive(Debug, PartialEq, Eq)]
pub enum StatusStep<E> {
    /// The Lightning node gave no status; the check ends with its error.
    Failed(E),
    /// The quote has that state already: go on to the next quote.
    Confirmed(PendingCheck),
    /// Update the quote's state.
    Update { update: StateUpdate, awaiting: AwaitingUpdate },
}

/// A [`StatusStep`] by its texts.
pub enum StatusStepView<E> {
    Failed(E),
    Confirmed(Seq<PendingQuoteView>),
    Update { update: StateUpdateView, awaiting: Seq<PendingQuoteView> },
}

impl<E> View for StatusStep<E> {
    type V = StatusStepView<E>;

    open spec fn view(&self) -> StatusStepView<E> {
        match *self {
            StatusStep::Failed(error) => StatusStepView::Failed(error),
            StatusStep::Confirmed(rest) => StatusStepView::Confirmed(rest@),
            StatusStep::Update { update, awaiting } => StatusStepView::Update {
                update: update@,
                awaiting: awaiting@,
            },
        }
    }
}

/// The next step of a check of `quotes`, where `read` is what reading the first quote's payment
/// request gave.
pub open spec fn step_given(
    quotes: Seq<PendingQuoteView>,
    read: Result<InvoiceView, Seq<char>>,
) -> PendingStepView {
    match read {
        Err(reason) => PendingStepView::Unreadable(reason),
        Ok(invoice) => PendingStepView::CheckStatus {
            payment_hash: invoice.payment_hash,
            awaiting: quotes,
        },
    }
}

/// The next step of a check of `quotes`.
pub open spec fn step(quotes: Seq<PendingQuoteView>) -> PendingStepView {
    if quotes.len() == 0 {
        PendingStepView::Done
    } else {
        step_given(quotes, crate::invoice::decoded(quotes[0].request))
    }
}

/// The update that a reported status calls for: none where the quote has that state already.
pub open spec fn update_for(quote: PendingQuoteView, status: MintQuoteState) -> Option<
    StateUpdateView,
> {
    if status != quote.state {
        Some(StateUpdateView { quote_id: quote.id, state: status })
    } else {
        None
    }
}

/// What a check of `quotes` does once the Lightning node has answered for the first of them.
pub open spec fn status_step<E>(
    quotes: Seq<PendingQuoteView>,
    status: Result<MintQuoteState, E>,
) -> StatusStepView<E> {
    match status {
        Err(error) => StatusStepView::Failed(error),
        Ok(status) => match update_for(quotes[0], status) {
            Some(update) => StatusStepView::Update { update, awaiting: quotes.skip(1) },
            None => StatusStepView::Confirmed(quotes.skip(1)),
        },
    }
}

/// How a check goes on once the mint has answered to an update: with the quotes `rest` where the
/// update was made, else not at all.
pub open spec fn update_step<F>(rest: Seq<PendingQuoteView>, outcome: Result<(), F>) -> Result<
    Seq<PendingQuoteView>,
    F,
> {
    match outcome {
        Ok(()) => Ok(rest),
        Err(error) => Err(error),
    }
}

/// Begins the check of the mint's pending quotes.
pub fn check_pending_quotes(quotes: Vec<PendingQuote>) -> (r: PendingCheck)
    ensures
        r@ == quote_views(quotes@),
        r@.len() == quotes.len(),
        forall|i: int|
            0 <= i < quotes.len() ==> {
                &&& (#[trigger] r@[i]).id == quotes[i].id@
                &&& r@[i].request == quotes[i].request@
                &&& r@[i].state == quotes[i].state
            },
{
    PendingCheck { quotes, next: 0 }
}

impl PendingCheck {
    #[verifier::type_invariant]
    spec fn in_range(self) -> bool {
        self.next <= self.quotes.len()
    }

    /// Goes on to the next quote.
    pub fn next(self) -> (r: PendingStep)
        ensures
            r@ == step(self@),
            if self@.len() == 0 {
                r is Done
            } else {
                match crate::invoice::bolt11(self@[0].request) {
                    Ok(read) => {
                        &&& r matches PendingStep::CheckStatus { payment_hash, awaiting }
                        &&& payment_hash@ == read.payment_hash
                        &&& awaiting@ == self@
                    },
                    Err(why) => r matches PendingStep::Unreadable(reason) && reason@ == why,
                }
            },
    {
        proof {
            use_type_invariant(&self);
        }
        if self.next == self.quotes.len() {
            return PendingStep::Done;
        }
        let read = decode_invoice(self.quotes[self.next].request.as_str());
        self.next_given(read)
    }

    /// Goes on to the next quote, given what reading its payment request gave.
    pub fn next_given(self, read: Result<Invoice, String>) -> (r: PendingStep)
        requires
            self@.len() > 0,
        ensures
            r@ == step_given(self@, crate::invoice::reading(read)),
            match read {
                Ok(invoice) => {
                    &&& r matches PendingStep::CheckStatus { payment_hash, awaiting }
                    &&& payment_hash@ == invoice.payment_hash@
                    &&& awaiting@ == self@
                },
                Err(why) => r matches PendingStep::Unreadable(reason) && reason@ == why@,
            },
    {
        proof {
            use_type_invariant(&self);
        }
        match read {
            Err(reason) => PendingStep::Unreadable(reason),
            Ok(invoice) => PendingStep::CheckStatus {
                payment_hash: invoice.payment_hash,
                awaiting: AwaitingStatus { quotes: self.quotes, next: self.next },
            },
        }
    }
}

impl AwaitingStatus {
    #[verifier::type_invariant]
    spec fn in_range(self) -> bool {
        self.next < self.quotes.len()
    }

    /// Takes the Lightning node's answer: ends the check where it is an error, else says whether
    /// the quote's state is to be updated.
    pub fn reported<E>(self, status: Result<MintQuoteState, E>) -> (r: StatusStep<E>)
        ensures
            self@.len() > 0,
            r@ == status_step(self@, status),
            match r {
                StatusStep::Failed(error) => status == Err::<MintQuoteState, E>(error),
                StatusStep::Confirmed(rest) => {
                    &&& status == Ok::<MintQuoteState, E>(self@[0].state)
                    &&& rest@ == self@.skip(1)
                },
                StatusStep::Update { update, awaiting } => {
                    &&& status == Ok::<MintQuoteState, E>(update.state)
                    &&& update.state != self@[0].state
                    &&& update.quote_id@ == self@[0].id
                    &&& awaiting@ == self@.skip(1)
                },
            },
    {
        proof {
            use_type_invariant(&self);
        }
        match status {
            Err(error) => StatusStep::Failed(error),
            Ok(status) => {
                let ghost quotes = self@;
                let quote = &self.quotes[self.next];
                let update = if status != quote.state {
                    Some(StateUpdate { quote_id: quote.id.clone(), state: status })
                } else {
                    None
                };
                let rest = PendingCheck { quotes: self.quotes, next: self.next + 1 };
                assert(rest@ =~= quotes.skip(1));
                match update {
                    Some(update) => StatusStep::Update {
                        update,
                        awaiting: AwaitingUpdate { rest },
                    },
                    None => StatusStep::Confirmed(rest),
                }
            },
        }
    }
}

impl AwaitingUpdate {
    /// Takes the mint's answer to the update: goes on to the next quote where the update was
    /// made, and ends the check with the error where it was not.
    pub fn updated<F>(self, outcome: Result<(), F>) -> (r: Result<PendingCheck, F>)
        ensures
            crate::response::viewed(r) == update_step(self@, outcome),
            match outcome {
                Ok(()) => r matches Ok(rest) && rest@ == self@,
                Err(error) => r matches Err(why) && why == error,
            },
    {
        match outcome {
            Ok(()) => Ok(self.rest),
            Err(error) => Err(error),
        }
    }
}

/// What the outside answers for one quote: the Lightning node when it is asked for the status, and
/// the mint when it is told to update the quote.
pub struct Answers<E, F> {
    pub status: Result<MintQuoteState, E>,
    pub update: Result<(), F>,
}

/// How a check ends.
pub enum PendingEnd<E, F> {
    /// Every quote was checked.
    Done,
    /// A payment request could not be read, for this reason.
    Unreadable(Seq<char>),
    /// The Lightning node gave no status.
    StatusFailed(E),
    /// The mint did not make an update.
    UpdateFailed(F),
    /// The Lightning node has not answered yet.
    Unanswered,
}

/// A whole check: the payment hashes asked for, the updates ordered, those of them that were made,
/// each in order, and the end.
pub struct PendingRun<E, F> {
    pub asked: Seq<Seq<char>>,
    pub ordered: Seq<StateUpdateView>,
    pub made: Seq<StateUpdateView>,
    pub end: PendingEnd<E, F>,
}

/// The check of `quotes`, step by step, where `answers` is what the outside answers for one quote
/// after the other.
pub open spec fn pending_run<E, F>(
    quotes: Seq<PendingQuoteView>,
    answers: Seq<Answers<E, F>>,
) -> PendingRun<E, F>
    decreases quotes.len(),
{
    match step(quotes) {
        PendingStepView::Done => ended(PendingEnd::Done),
        PendingStepView::Unreadable(reason) => ended(PendingEnd::Unreadable(reason)),
        PendingStepView::CheckStatus { payment_hash, awaiting } => if answers.len() == 0 {
            PendingRun { asked: seq![payment_hash], ..ended(PendingEnd::Unanswered) }
        } else {
            match status_step(awaiting, answers[0].status) {
                StatusStepView::Failed(error) => PendingRun {
                    asked: seq![payment_hash],
                    ..ended(PendingEnd::StatusFailed(error))
                },
                StatusStepView::Confirmed(rest) => {
                    let run = pending_run(rest, answers.skip(1));
                    PendingRun { asked: seq![payment_hash] + run.asked, ..run }
                },
                StatusStepView::Update { update, awaiting } => match update_step(
                    awaiting,
                    answers[0].update,
                ) {
                    Err(error) => PendingRun {
                        asked: seq![payment_hash],
                        ordered: seq![update],
                        ..ended(PendingEnd::UpdateFailed(error))
                    },
                    Ok(rest) => {
                        let run = pending_run(rest, answers.skip(1));
                        PendingRun {
                            asked: seq![payment_hash] + run.asked,
                            ordered: seq![update] + run.ordered,
                            made: seq![update] + run.made,
                            end: run.end,
                        }
                    },
                },
            }
        },
    }
}

/// A check that ends before it asks for anything.
pub open spec fn ended<E, F>(end: PendingEnd<E, F>) -> PendingRun<E, F> {
    PendingRun { asked: seq![], ordered: seq![], made: seq![], end }
}

/// The failure that the check of a quote meets, if it meets one: its payment request cannot be
/// read, or its status is not given, or the update that its status calls for is not made.
pub open spec fn failure_of<E, F>(quote: PendingQuoteView, answers: Answers<E, F>) -> Option<
    PendingEnd<E, F>,
> {
    match crate::invoice::decoded(quote.request) {
        Err(reason) => Some(PendingEnd::Unreadable(reason)),
        Ok(_) => match answers.status {
            Err(error) => Some(PendingEnd::StatusFailed(error)),
            Ok(status) => match (update_for(quote, status), answers.update) {
                (Some(_), Err(error)) => Some(PendingEnd::UpdateFailed(error)),
                _ => None,
            },
        },
    }
}

/// Whether the check of each of the first `n` quotes is answered and meets no failure.
pub open spec fn no_failure<E, F>(
    quotes: Seq<PendingQuoteView>,
    answers: Seq<Answers<E, F>>,
    n: int,
) -> bool {
    &&& 0 <= n <= quotes.len()
    &&& n <= answers.len()
    &&& forall|i: int|
        0 <= i < n ==> failure_of(#[trigger] quotes[i], #[trigger] answers[i]) is None
}

/// The payment hashes of the first `n` quotes.
pub open spec fn payment_hashes(quotes: Seq<PendingQuoteView>, n: int) -> Seq<Seq<char>> {
    Seq::new(
        n as nat,
        |i: int| crate::invoice::decoded(quotes[i].request)->Ok_0.payment_hash,
    )
}

/// The updates that the statuses of the first `n` quotes call for.
pub open spec fn updates_due<E, F>(
    quotes: Seq<PendingQuoteView>,
    answers: Seq<Answers<E, F>>,
    n: int,
) -> Seq<StateUpdateView>
    decreases n,
{
    if n <= 0 {
        seq![]
    } else {
        let later = updates_due(quotes.skip(1), answers.skip(1), n - 1);
        match update_for(quotes[0], answers[0].status->Ok_0) {
            Some(update) => seq![update] + later,
            None => later,
        }
    }
}

/// Whether no two quotes have the same id.
pub open spec fn distinct_ids(quotes: Seq<PendingQuoteView>) -> bool {
    forall|i: int, j: int|
        0 <= i < j < quotes.len() ==> (#[trigger] quotes[i]).id != (#[trigger] quotes[j]).id
}

/// Whether one of the first `n` quotes has this id.
pub open spec fn has_id(quotes: Seq<PendingQuoteView>, n: int, id: Seq<char>) -> bool {
    exists|i: int| 0 <= i < n && (#[trigger] quotes[i]).id == id
}

/// Whether the mint's store holds each quote with the state that the quote shows.
pub open spec fn stored(
    quotes: Seq<PendingQuoteView>,
    store: Map<Seq<char>, MintQuoteState>,
) -> bool {
    forall|i: int|
        0 <= i < quotes.len() ==> {
            &&& store.dom().contains((#[trigger] quotes[i]).id)
            &&& store[quotes[i].id] == quotes[i].state
        }
}

/// Whether the store `after` holds each of the first `n` quotes with the status that the Lightning
/// node gave of it, and everything else as `before` does.
pub open spec fn caught_up<E, F>(
    quotes: Seq<PendingQuoteView>,
    answers: Seq<Answers<E, F>>,
    n: int,
    before: Map<Seq<char>, MintQuoteState>,
    after: Map<Seq<char>, MintQuoteState>,
) -> bool {
    &&& after.dom() =~= before.dom()
    &&& forall|i: int|
        0 <= i < n ==> Ok::<MintQuoteState, E>(after[(#[trigger] quotes[i]).id])
            == answers[i].status
    &&& forall|id: Seq<char>|
        !has_id(quotes, n, id) && before.dom().contains(id) ==> #[trigger] after[id] == before[id]
}

/// A check that meets no failure in its first `n` quotes does what is due for these, and then
/// checks the others.
proof fn lemma_check_of_prefix<E, F>(
    quotes: Seq<PendingQuoteView>,
    answers: Seq<Answers<E, F>>,
    n: int,
)
    requires
        no_failure(quotes, answers, n),
    ensures
        ({
            let run = pending_run(quotes, answers);
            let later = pending_run(quotes.skip(n), answers.skip(n));
            &&& run.asked == payment_hashes(quotes, n) + later.asked
            &&& run.ordered == updates_due(quotes, answers, n) + later.ordered
            &&& run.made == updates_due(quotes, answers, n) + later.made
            &&& run.end == later.end
        }),
    decreases n,
{
    let run = pending_run(quotes, answers);
    let later = pending_run(quotes.skip(n), answers.skip(n));
    if n == 0 {
        assert(quotes.skip(0) =~= quotes);
        assert(answers.skip(0) =~= answers);
        assert(payment_hashes(quotes, 0) + later.asked =~= later.asked);
        assert(updates_due(quotes, answers, 0) + later.ordered =~= later.ordered);
        assert(updates_due(quotes, answers, 0) + later.made =~= later.made);
    } else {
        let others = quotes.skip(1);
        let other_answers = answers.skip(1);
        assert(failure_of(quotes[0], answers[0]) is None);
        assert forall|i: int| 0 <= i < n - 1 implies failure_of(
            #[trigger] others[i],
            #[trigger] other_answers[i],
        ) is None by {
            assert(failure_of(quotes[i + 1], answers[i + 1]) is None);
        }
        lemma_check_of_prefix(others, other_answers, n - 1);
        assert(others.skip(n - 1) =~= quotes.skip(n));
        assert(other_answers.skip(n - 1) =~= answers.skip(n));
        let hash = crate::invoice::decoded(quotes[0].request)->Ok_0.payment_hash;
        assert(payment_hashes(quotes, n) =~= seq![hash] + payment_hashes(others, n - 1));
        assert(run.asked =~= payment_hashes(quotes, n) + later.asked);
        assert(run.ordered =~= updates_due(quotes, answers, n) + later.ordered);
        assert(run.made =~= updates_due(quotes, answers, n) + later.made);
    }
}

/// The updates due for the first `n` quotes bring the mint's store up to the Lightning node on
/// these quotes.
proof fn lemma_updates_catch_up<E, F>(
    quotes: Seq<PendingQuoteView>,
    answers: Seq<Answers<E, F>>,
    n: int,
    store: Map<Seq<char>, MintQuoteState>,
)
    requires
        no_failure(quotes, answers, n),
        distinct_ids(quotes),
        stored(quotes, store),
    ensures
        caught_up(
            quotes,
            answers,
            n,
            store,
            crate::quote_state::all_updated(store, updates_due(quotes, answers, n)),
        ),
    decreases n,
{
    if n > 0 {
        let others = quotes.skip(1);
        let other_answers = answers.skip(1);
        let later = updates_due(others, other_answers, n - 1);
        let updates = updates_due(quotes, answers, n);
        let after = crate::quote_state::all_updated(store, updates);
        assert(failure_of(quotes[0], answers[0]) is None);
        assert forall|i: int| 0 <= i < n - 1 implies failure_of(
            #[trigger] others[i],
            #[trigger] other_answers[i],
        ) is None by {
            assert(failure_of(quotes[i + 1], answers[i + 1]) is None);
        }
        let first = update_for(quotes[0], answers[0].status->Ok_0);
        let between = match first {
            Some(update) => crate::quote_state::updated(store, update),
            None => store,
        };
        assert(after == crate::quote_state::all_updated(between, later)) by {
            if first is Some {
                assert(updates.skip(1) =~= later);
            }
        }
        lemma_updates_catch_up(others, other_answers, n - 1, between);
        assert(!has_id(others, n - 1, quotes[0].id));
        assert forall|i: int| 0 <= i < n implies Ok::<MintQuoteState, E>(
            after[(#[trigger] quotes[i]).id],
        ) == answers[i].status by {
            if i > 0 {
                assert(others[i - 1] == quotes[i]);
                assert(other_answers[i - 1] == answers[i]);
            }
        }
        assert forall|id: Seq<char>|
            !has_id(quotes, n, id) && store.dom().contains(id) implies #[trigger] after[id]
            == store[id] by {
            if has_id(others, n - 1, id) {
                let i = choose|i: int| 0 <= i < n - 1 && (#[trigger] others[i]).id == id;
                assert(quotes[i + 1].id == id);
            }
            assert(quotes[0].id != id);
        }
    }
}

/// Where no failure is met, the check asks for each quote's payment hash once and makes each
/// update that is due, in order, and is done.
pub proof fn law_every_quote_is_checked<E, F>(
    quotes: Seq<PendingQuoteView>,
    answers: Seq<Answers<E, F>>,
)
    requires
        no_failure(quotes, answers, quotes.len() as int),
    ensures
        ({
            let run = pending_run(quotes, answers);
            let all = quotes.len() as int;
            &&& run.end is Done
            &&& run.asked == payment_hashes(quotes, all)
            &&& run.ordered == updates_due(quotes, answers, all)
            &&& run.made == run.ordered
        }),
{
    let all = quotes.len() as int;
    lemma_check_of_prefix(quotes, answers, all);
    let run = pending_run(quotes, answers);
    assert(run.asked =~= payment_hashes(quotes, all));
    assert(run.ordered =~= updates_due(quotes, answers, all));
    assert(run.made =~= updates_due(quotes, answers, all));
}

/// The check stops at the first failure, and ends with it. By then it has asked for the payment
/// hashes of the quotes before that one, and of that one too if its payment request could be
/// read; it has made the updates due for the quotes before that one; and it has ordered no other
/// update, but for the one that failed. It asks and orders nothing for the quotes after that one.
pub proof fn law_check_stops_at_the_first_failure<E, F>(
    quotes: Seq<PendingQuoteView>,
    answers: Seq<Answers<E, F>>,
    k: int,
)
    requires
        k < quotes.len(),
        no_failure(quotes, answers, k),
        failure_of(quotes[k], answers[k]) is Some,
        k < answers.len() || crate::invoice::decoded(quotes[k].request) is Err,
    ensures
        ({
            let run = pending_run(quotes, answers);
            let before = updates_due(quotes, answers, k);
            &&& run.end == failure_of(quotes[k], answers[k])->0
            &&& run.asked == payment_hashes(
                quotes,
                if run.end is Unreadable {
                    k
                } else {
                    k + 1
                },
            )
            &&& run.made == before
            &&& run.ordered == if run.end is UpdateFailed {
                before.push(update_for(quotes[k], answers[k].status->Ok_0)->0)
            } else {
                before
            }
        }),
{
    lemma_check_of_prefix(quotes, answers, k);
    let run = pending_run(quotes, answers);
    let before = updates_due(quotes, answers, k);
    let rest = quotes.skip(k);
    assert(rest[0] == quotes[k]);
    if k < answers.len() {
        assert(answers.skip(k)[0] == answers[k]);
    }
    let later = pending_run(rest, answers.skip(k));
    assert(later.made =~= seq![]);
    assert(run.made =~= before);
    if run.end is Unreadable {
        assert(run.asked =~= payment_hashes(quotes, k));
    } else {
        assert(run.asked =~= payment_hashes(quotes, k + 1));
    }
    if run.end is UpdateFailed {
        assert(run.ordered =~= before.push(
            update_for(quotes[k], answers[k].status->Ok_0)->0,
        ));
    } else {
        assert(run.ordered =~= before);
    }
}

/// Where no failure is met, the check leaves the mint's store holding each quote with the status
/// that the Lightning node gave of it, and everything else as before.
pub proof fn law_store_catches_up_with_the_node<E, F>(
    quotes: Seq<PendingQuoteView>,
    answers: Seq<Answers<E, F>>,
    store: Map<Seq<char>, MintQuoteState>,
)
    requires
        no_failure(quotes, answers, quotes.len() as int),
        distinct_ids(quotes),
        stored(quotes, store),
    ensures
        caught_up(
            quotes,
            answers,
            quotes.len() as int,
            store,
            crate::quote_state::all_updated(store, pending_run(quotes, answers).made),
        ),
{
    law_every_quote_is_checked(quotes, answers);
    lemma_updates_catch_up(quotes, answers, quotes.len() as int, store);
}

/// Where the check stops at a failure, the updates made before it stay in place: the mint's store
/// holds each quote before that one with the status that the Lightning node gave of it, and
/// everything else as before, where an update that fails changes nothing.
pub proof fn law_updates_before_a_failure_stay<E, F>(
    quotes: Seq<PendingQuoteView>,
    answers: Seq<Answers<E, F>>,
    k: int,
    store: Map<Seq<char>, MintQuoteState>,
)
    requires
        k < quotes.len(),
        no_failure(quotes, answers, k),
        failure_of(quotes[k], answers[k]) is Some,
        k < answers.len() || crate::invoice::decoded(quotes[k].request) is Err,
        distinct_ids(quotes),
        stored(quotes, store),
    ensures
        caught_up(
            quotes,
            answers,
            k,
            store,
            crate::quote_state::all_updated(store, pending_run(quotes, answers).made),
        ),
{
    law_check_stops_at_the_first_failure(quotes, answers, k);
    lemma_updates_catch_up(quotes, answers, k, store);
}

/// The check of the first quote asks for the payment hash that its payment request reads as, ends
/// with the reader's reason where it does not read, and is done where there is no quote.
pub proof fn law_check_asks_for_the_hash_that_was_read(quotes: Seq<PendingQuoteView>)
    ensures
        step(quotes) is Done <==> quotes.len() == 0,
        quotes.len() > 0 ==> match crate::invoice::bolt11(quotes[0].request) {
            Ok(read) => {
                &&& step(quotes) matches PendingStepView::CheckStatus { payment_hash, awaiting }
                &&& payment_hash == read.payment_hash
                &&& awaiting == quotes
            },
            Err(why) => step(quotes) matches PendingStepView::Unreadable(reason) && reason == why,
        },
{
}

/// A quote is updated exactly where the Lightning node gives another state than it has, and to
/// that state; a status that is not given ends the check. Either way the check goes on with all
/// the other quotes.
pub proof fn law_update_brings_the_quote_to_its_status<E>(
    quotes: Seq<PendingQuoteView>,
    status: Result<MintQuoteState, E>,
)
    requires
        quotes.len() > 0,
    ensures
        match status_step(quotes, status) {
            StatusStepView::Failed(error) => status == Err::<MintQuoteState, E>(error),
            StatusStepView::Confirmed(rest) => {
                &&& status == Ok::<MintQuoteState, E>(quotes[0].state)
                &&& seq![quotes[0]] + rest == quotes
            },
            StatusStepView::Update { update, awaiting } => {
                &&& status == Ok::<MintQuoteState, E>(update.state)
                &&& update.state != quotes[0].state
                &&& update.quote_id == quotes[0].id
                &&& seq![quotes[0]] + awaiting == quotes
            },
        },
{
    assert(seq![quotes[0]] + quotes.skip(1) =~= quotes);
}

/// The check goes on with the same quotes after an update that was made, and ends with the mint's
/// error after one that was not.
pub proof fn law_failed_update_ends_the_check<F>(
    rest: Seq<PendingQuoteView>,
    outcome: Result<(), F>,
)
    ensures
        outcome is Ok ==> update_step(rest, outcome) == Ok::<Seq<PendingQuoteView>, F>(rest),
        outcome matches Err(error) ==> update_step(rest, outcome) == Err::<
            Seq<PendingQuoteView>,
            F,
        >(error),
{
}

/// Whatever is answered, each payment hash that the check asks for is the one that the payment
/// request of the quote in that place reads as.
pub proof fn law_asked_hashes_are_those_that_were_read<E, F>(
    quotes: Seq<PendingQuoteView>,
    answers: Seq<Answers<E, F>>,
    i: int,
)
    requires
        0 <= i < pending_run(quotes, answers).asked.len(),
    ensures
        i < quotes.len(),
        crate::invoice::bolt11(quotes[i].request) is Ok,
        pending_run(quotes, answers).asked[i] == crate::invoice::bolt11(
            quotes[i].request,
        )->Ok_0.payment_hash,
    decreases quotes.len(),
{
    if i > 0 {
        assert(pending_run(quotes, answers).asked[i] == pending_run(
            quotes.skip(1),
            answers.skip(1),
        ).asked[i - 1]);
        law_asked_hashes_are_those_that_were_read(quotes.skip(1), answers.skip(1), i - 1);
    }
}

/// A check that meets no failure at its first quote asks for the quote's payment hash, updates the
/// quote where its status differs from its state, and then does what the check of the other
/// quotes does.
pub proof fn law_check_goes_quote_by_quote<E, F>(
    quotes: Seq<PendingQuoteView>,
    answers: Seq<Answers<E, F>>,
)
    requires
        quotes.len() > 0,
        answers.len() > 0,
        crate::invoice::bolt11(quotes[0].request) is Ok,
        answers[0].status is Ok,
        answers[0].status->Ok_0 == quotes[0].state || answers[0].update is Ok,
    ensures
        ({
            let run = pending_run(quotes, answers);
            let later = pending_run(quotes.skip(1), answers.skip(1));
            let read = crate::invoice::bolt11(quotes[0].request)->Ok_0;
            let status = answers[0].status->Ok_0;
            let update = StateUpdateView { quote_id: quotes[0].id, state: status };
            &&& run.asked == seq![read.payment_hash] + later.asked
            &&& run.end == later.end
            &&& if status == quotes[0].state {
                run.ordered == later.ordered && run.made == later.made
            } else {
                run.ordered == seq![update] + later.ordered && run.made == seq![update] + later.made
            }
        }),
{
}

/// A check ends at its first quote where the quote's payment request does not read, where its
/// status is not given, or where it is to be updated and is not. It ends with that failure, and
/// nothing is made.
pub proof fn law_check_ends_at_a_failure<E, F>(
    quotes: Seq<PendingQuoteView>,
    answers: Seq<Answers<E, F>>,
)
    requires
        quotes.len() > 0,
        answers.len() > 0,
    ensures
        ({
            let run = pending_run(quotes, answers);
            let read = crate::invoice::bolt11(quotes[0].request);
            let ends = read is Err || answers[0].status is Err || answers[0].status->Ok_0
                != quotes[0].state && answers[0].update is Err;
            &&& ends ==> run.made.len() == 0
            &&& read matches Err(reason) ==> {
                &&& run.end == PendingEnd::<E, F>::Unreadable(reason)
                &&& run.asked.len() == 0
                &&& run.ordered.len() == 0
            }
            &&& read is Ok && answers[0].status is Err ==> {
                &&& run.end == PendingEnd::<E, F>::StatusFailed(answers[0].status->Err_0)
                &&& run.asked.len() == 1
                &&& run.ordered.len() == 0
            }
            &&& read is Ok && answers[0].status is Ok && ends ==> {
                &&& run.end == PendingEnd::<E, F>::UpdateFailed(answers[0].update->Err_0)
                &&& run.asked.len() == 1
                &&& run.ordered == seq![
                    StateUpdateView {
                        quote_id: quotes[0].id,
                        state: answers[0].status->Ok_0,
                    },
                ]
            }
        }),
{
}

/// A check of no quotes is done: it asks for nothing and updates nothing.
pub proof fn law_no_quotes_need_no_check<E, F>(answers: Seq<Answers<E, F>>)
    ensures
        ({
            let run = pending_run(Seq::<PendingQuoteView>::empty(), answers);
            &&& run.end is Done
            &&& run.asked.len() == 0
            &&& run.ordered.len() == 0
            &&& run.made.len() == 0
        }),
{
}

/// Where every payment request reads, every status is given and every update is made, the check is
/// done: it has asked for the payment hash of each quote, and made what it ordered. The mint's
/// store then holds each quote with its status, and no other quote has changed.
pub proof fn law_check_brings_every_quote_up_to_date<E, F>(
    quotes: Seq<PendingQuoteView>,
    answers: Seq<Answers<E, F>>,
    store: Map<Seq<char>, MintQuoteState>,
)
    requires
        quotes.len() == answers.len(),
        forall|i: int|
            0 <= i < quotes.len() ==> {
                &&& crate::invoice::bolt11((#[trigger] quotes[i]).request) is Ok
                &&& store.dom().contains(quotes[i].id)
                &&& store[quotes[i].id] == quotes[i].state
            },
        forall|i: int|
            0 <= i < answers.len() ==> (#[trigger] answers[i]).status is Ok && answers[i].update
                is Ok,
        forall|i: int, j: int|
            0 <= i < j < quotes.len() ==> (#[trigger] quotes[i]).id != (#[trigger] quotes[j]).id,
    ensures
        ({
            let run = pending_run(quotes, answers);
            let after = crate::quote_state::all_updated(store, run.made);
            &&& run.end is Done
            &&& run.asked.len() == quotes.len()
            &&& run.made == run.ordered
            &&& after.dom() == store.dom()
            &&& forall|i: int|
                0 <= i < quotes.len() ==> after[(#[trigger] quotes[i]).id]
                    == answers[i].status->Ok_0
            &&& forall|id: Seq<char>|
                store.dom().contains(id) && (forall|i: int|
                    0 <= i < quotes.len() ==> (#[trigger] quotes[i]).id != id)
                    ==> #[trigger] after[id] == store[id]
        }),
{
    let all = quotes.len() as int;
    assert(no_failure(quotes, answers, all));
    law_every_quote_is_checked(quotes, answers);
    law_store_catches_up_with_the_node(quotes, answers, store);
    let after = crate::quote_state::all_updated(store, pending_run(quotes, answers).made);
    assert forall|i: int| 0 <= i < quotes.len() implies after[(#[trigger] quotes[i]).id]
        == answers[i].status->Ok_0 by {
        assert(Ok::<MintQuoteState, E>(after[quotes[i].id]) == answers[i].status);
    }
}

/// A quote whose state the Lightning node confirms is not updated: where it confirms every one
/// that it answers for, the check orders no update.
pub proof fn law_confirmed_quotes_are_left_alone<E, F>(
    quotes: Seq<PendingQuoteView>,
    answers: Seq<Answers<E, F>>,
)
    requires
        forall|i: int|
            0 <= i < quotes.len() && i < answers.len() ==> (#[trigger] answers[i]).status == Ok::<
                MintQuoteState,
                E,
            >(quotes[i].state),
    ensures
        pending_run(quotes, answers).ordered.len() == 0,
    decreases quotes.len(),
{
    if quotes.len() > 0 && answers.len() > 0 {
        assert(answers[0].status == Ok::<MintQuoteState, E>(quotes[0].state));
        law_confirmed_quotes_are_left_alone(quotes.skip(1), answers.skip(1));
    }
}

} // verus!
