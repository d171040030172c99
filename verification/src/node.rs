//! A local node: the ledger store a development session works against,
//! together with the port and concurrency mode its dispatcher will use.
//! Serving the port is the caller's business; the node itself only owns
//! the state.

use vstd::prelude::*;

use crate::state::{fresh_store, StateManager, StoreView};
use crate::types::opt_string_view;

verus! {

/// One local development node.
pub struct LocalNode {
    pub port: u16,
    pub fork_url: Option<String>,
    pub parallel: bool,
    pub state: StateManager,
}

impl LocalNode {
    /// A node over a fresh store — remembering its fork origin when one
    /// is given, with the entries starting empty either way.
    pub fn new(port: u16, fork_url: Option<String>, parallel: bool) -> (n: Self)
        ensures
            n.port == port,
            n.parallel == parallel,
            opt_string_view(n.fork_url) == opt_string_view(fork_url),
            n.state@ == (StoreView {
                fork_url: opt_string_view(fork_url),
                ..fresh_store()
            }),
    {
        let state = match &fork_url {
            Some(url) => StateManager::forked(url.clone()),
            None => StateManager::new(),
        };
        proof {
            assert(state@ =~= (StoreView { fork_url: opt_string_view(fork_url), ..fresh_store() }));
        }
        LocalNode { port, fork_url, parallel, state }
    }

    /// The node's store.
    pub fn get_state(&self) -> (s: &StateManager)
        ensures
            s == &self.state,
    {
        &self.state
    }
}

} // verus!
