use vstd::prelude::*;

verus! {

/// The state of a mint quote.
#[derive(Clone, Copy, Debug, PartialEq, Eq, Structural)]
pub enum MintQuoteState {
    Unpaid,
    Paid,
    Pending,
    Issued,
}

/// An order to set the state of the mint quote with this id.
#[derive(Debug, PartialEq, Eq)]
pub struct StateUpdate {
    pub quote_id: String,
    pub state: MintQuoteState,
}

/// A [`StateUpdate`] by its id's text.
pub struct StateUpdateView {
    pub quote_id: Seq<char>,
    pub state: MintQuoteState,
}

impl View for StateUpdate {
    type V = StateUpdateView;

    open spec fn view(&self) -> StateUpdateView {
        StateUpdateView { quote_id: self.quote_id@, state: self.state }
    }
}

/// The states of the mint's quotes, by id, after an update.
pub open spec fn updated(
    store: Map<Seq<char>, MintQuoteState>,
    update: StateUpdateView,
) -> Map<Seq<char>, MintQuoteState> {
    store.insert(update.quote_id, update.state)
}

/// The states of the mint's quotes, by id, after updates made one after the other.
pub open spec fn all_updated(
    store: Map<Seq<char>, MintQuoteState>,
    updates: Seq<StateUpdateView>,
) -> Map<Seq<char>, MintQuoteState>
    decreases updates.len(),
{
    if updates.len() == 0 {
        store
    } else {
        all_updated(updated(store, updates[0]), updates.skip(1))
    }
}

} // verus!
