//! One live session with an editor instance, as far as the library reads
//! it: the address it was opened to.

use vstd::prelude::*;
use vstd::string::*;

verus! {

/// An open session with one editor instance.
#[derive(Debug, Clone)]
pub struct NeovimConnection {
    /// The endpoint address that the session was opened to.
    pub address: String,
}

impl NeovimConnection {
    /// A session opened to `address`.
    pub fn new(address: String) -> (connection: Self)
        ensures
            connection.address == address,
    {
        NeovimConnection { address }
    }

    /// Whether the session is alive: its background task has not finished.
    pub fn is_connected(&self, task_finished: bool) -> (alive: bool)
        ensures
            alive == !task_finished,
    {
        !task_finished
    }

    /// The endpoint address of the session.
    pub fn address(&self) -> (address: &str)
        ensures
            address@ == self.address@,
    {
        self.address.as_str()
    }
}

} // verus!
