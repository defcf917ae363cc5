//! What the launcher counts while it runs.

use vstd::prelude::*;

verus! {

/// The requests so far, and who is active.
#[derive(Debug, PartialEq, Eq)]
pub struct AppState {
    pub request_count: u64,
    pub active_users: Vec<String>,
}

impl Default for AppState {
    fn default() -> (state: Self)
        ensures
            state.request_count == 0,
            state.active_users@.len() == 0,
    {
        AppState { request_count: 0, active_users: Vec::new() }
    }
}

/// Counts one more request.
pub fn handle_request(state: &mut AppState)
    requires
        old(state).request_count < u64::MAX,
    ensures
        *final(state) == (AppState {
            request_count: (old(state).request_count + 1) as u64,
            ..*old(state)
        }),
{
    state.request_count = state.request_count + 1;
}

} // verus!
