//! State that the web application shares among its request handlers.

use vstd::prelude::*;

verus! {

/// Web app state that is injected into each handler at run time. It holds the
/// one handle to the remote ledger that the process owns; handlers borrow it
/// for their query.
pub struct AppData<C> {
    client: C,
}

impl<C> View for AppData<C> {
    type V = C;

    closed spec fn view(&self) -> C {
        self.client
    }
}

impl<C> AppData<C> {
    /// Creates new state with the provided client.
    pub fn new(client: C) -> (data: Self)
        ensures
            data@ == client,
    {
        Self { client }
    }

    /// The client that the state was made with.
    pub fn client(&self) -> (client: &C)
        ensures
            *client == self@,
    {
        &self.client
    }
}

} // verus!
