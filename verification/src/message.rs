//! Message and handler capabilities consumed by the event bus.
//!
//! A message is an immutable value identified at runtime by a stable integer
//! tag; handler dispatch goes by that tag alone, so one message type may
//! gather several message kinds as variants with distinct tags.

use vstd::prelude::*;

verus! {

/// A value that can travel through the event bus. `tag` is the stable
/// runtime identity of the message's kind: dispatch compares tags, nothing
/// else.
pub trait Message: Sized {
    /// The tag of this message, at the specification level.
    spec fn spec_tag(&self) -> u64;

    /// The stable runtime tag of this message's kind.
    fn tag(&self) -> (t: u64)
        ensures
            t == self.spec_tag(),
    ;
}

/// A context passed to every handler invocation. It carries no fields yet,
/// but it is threaded through each invocation so that it can grow later.
#[derive(Debug)]
pub struct MessageContext {

}

impl Default for MessageContext {
    fn default() -> (r: MessageContext)
        ensures
            r == (MessageContext {  }),
    {
        MessageContext {  }
    }
}

/// A handler which reacts to messages of type `M`.
///
/// `handle_rel` is the handler's own statement of what one invocation does to
/// its state; every implementation must prove that `handle` establishes it.
/// A handler that is offered a message kind it does not care for states a
/// no-op for that kind and silently ignores the value.
pub trait MessageHandler<M: Message>: Sized {
    /// Relates the handler state before one invocation on `msg` to the state
    /// after it.
    spec fn handle_rel(pre: Self, msg: M, post: Self) -> bool;

    /// Process one message. Runs to completion before dispatch moves on.
    fn handle(&mut self, msg: &M, ctx: &mut MessageContext)
        ensures
            Self::handle_rel(*old(self), *msg, *final(self)),
    ;
}

} // verus!
