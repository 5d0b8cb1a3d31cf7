//! What the connection pool is told about the connections it keeps.
//!
//! The pool itself, and the connections in it, live outside this library.
//! This is the manager that the pool consults: where to connect to, and
//! whether a connection that it holds may be handed out again.

use vstd::prelude::*;

verus! {

/// Makes and judges the connections to one upstream endpoint.
#[derive(Debug, PartialEq, Eq)]
pub struct GrpcClientManager {
    /// The address of the upstream stats service.
    pub uri: String,
}

impl GrpcClientManager {
    /// The address that a new connection is made to.
    pub fn endpoint(&self) -> (uri: String)
        ensures
            uri@ == self.uri@,
    {
        self.uri.clone()
    }

    /// Whether a connection may be handed out, with the reason if it may not.
    /// A connection is not looked at again once its handshake has succeeded,
    /// so every one may.
    pub fn is_valid<E>(&self) -> (verdict: Result<(), E>)
        ensures
            verdict is Ok,
    {
        Ok(())
    }

    /// Whether a connection that comes back is to be thrown away. None is: a
    /// connection that has gone bad shows only when a later query fails on
    /// it.
    pub fn has_broken(&self) -> (broken: bool)
        ensures
            !broken,
    {
        false
    }
}

} // verus!
