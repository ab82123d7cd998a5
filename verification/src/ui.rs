//! The interface state kept in one store: the screen shown, the one before,
//! and the last comparison.
use vstd::prelude::*;
use crate::models::comparison_data::{ComparisonData, ComparisonDataView};
pub use crate::interface::state::UIState;

verus! {

/// The state that the interface keeps between its steps.
pub struct UiStore {
    state: UIState,
    prev_state: UIState,
    comparison_data: Option<ComparisonData>,
}

/// Model of [`UiStore`].
pub struct UiStoreView {
    pub state: UIState,
    pub prev_state: UIState,
    pub data: Option<ComparisonDataView>,
}

impl View for UiStore {
    type V = UiStoreView;

    closed spec fn view(&self) -> UiStoreView {
        UiStoreView {
            state: self.state,
            prev_state: self.prev_state,
            data: match self.comparison_data {
                Some(d) => Some(d@),
                None => None,
            },
        }
    }
}

impl UiStore {
    /// The store at start-up: both screens are the start-up screen, and no
    /// comparison was made.
    pub fn new() -> (s: UiStore)
        ensures
            s@ == (UiStoreView { state: UIState::StartUp, prev_state: UIState::StartUp, data: None }),
    {
        UiStore { state: UIState::StartUp, prev_state: UIState::StartUp, comparison_data: None }
    }
}

/// Shows `state`; the screen shown until now becomes the previous one.
pub fn set_state(store: &mut UiStore, state: UIState)
    ensures
        final(store)@.state == state,
        final(store)@.prev_state == old(store)@.state,
        final(store)@.data == old(store)@.data,
{
    store.prev_state = get_state(store);
    store.state = state;
}

/// The screen shown.
pub fn get_state(store: &UiStore) -> (s: UIState)
    ensures
        s == store@.state,
{
    store.state
}

/// The screen shown before the current one.
pub fn get_prev_state(store: &UiStore) -> (s: UIState)
    ensures
        s == store@.prev_state,
{
    store.prev_state
}

/// Keeps the result of a comparison.
pub fn set_comparison_data(store: &mut UiStore, data: ComparisonData)
    ensures
        final(store)@.state == old(store)@.state,
        final(store)@.prev_state == old(store)@.prev_state,
        final(store)@.data == Some(data@),
{
    store.comparison_data = Some(data);
}

/// The result of the last comparison, if there was one.
pub fn get_comparison_data(store: &UiStore) -> (d: Option<&ComparisonData>)
    ensures
        match (d, store@.data) {
            (Some(x), Some(y)) => x@ == y,
            (None, None) => true,
            _ => false,
        },
{
    match &store.comparison_data {
        Some(data) => Some(data),
        None => None,
    }
}

} // verus!
