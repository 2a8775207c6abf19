//! Interrupt handlers registered by user code, with an optional context.
//!
//! A handler is held as the address of its routine and, where it takes one,
//! the address of its context.

use vstd::prelude::*;

verus! {

/// A routine to run on an interrupt, and the context handed to it.
#[derive(Clone, Copy, Debug, PartialEq, Eq, Structural)]
pub struct UserHandler {
    handler: usize,
    context: Option<usize>,
    init: bool,
}

impl UserHandler {
    /// The address of the routine.
    pub closed spec fn routine(&self) -> usize {
        self.handler
    }

    /// The address of the context, if the routine takes one.
    pub closed spec fn context(&self) -> Option<usize> {
        self.context
    }

    /// Whether the handler is ready to run.
    pub closed spec fn ready(&self) -> bool {
        self.init
    }

    /// A handler that runs nothing.
    pub fn empty() -> (r: UserHandler)
        ensures
            r.routine() == 0,
            r.context() is None,
            !r.ready(),
    {
        UserHandler { handler: 0, context: None, init: false }
    }

    /// A ready handler running `handler` without a context.
    pub fn isolated(handler: usize) -> (r: UserHandler)
        ensures
            r.routine() == handler,
            r.context() is None,
            r.ready(),
    {
        UserHandler { handler, context: None, init: true }
    }

    /// A handler running `handler` on `context`, ready when `init` is.
    pub fn contextualized(handler: usize, context: usize, init: bool) -> (r: UserHandler)
        ensures
            r.routine() == handler,
            r.context() == Some(context),
            r.ready() == init,
    {
        UserHandler { handler, context: Some(context), init }
    }

    /// What to run on the interrupt: nothing unless the handler is ready;
    /// otherwise the routine, with its context if it takes one.
    pub fn call(&self) -> (r: Option<(usize, Option<usize>)>)
        ensures
            r is None <==> !self.ready(),
            r matches Some(c) ==> c.0 == self.routine() && c.1 == self.context(),
    {
        if self.init {
            Some((self.handler, self.context))
        } else {
            None
        }
    }
}

} // verus!
