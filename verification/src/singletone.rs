//! The single-instance message channel: the wrapper every message crosses
//! the process boundary in, and the listener a running instance implements
//! to receive them.  The bus transport itself lives outside the library.

use vstd::prelude::*;

verus! {

/// A message as it crosses the process boundary.
#[derive(Clone, Copy, Debug, PartialEq, Eq)]
pub struct GenericMessage<T>(pub T);

/// What a running instance does with a message another instance sent it.
pub trait SingletoneListener<Message> {
    /// Handle one incoming message.
    fn on_message(&mut self, msg: Message);
}

} // verus!
