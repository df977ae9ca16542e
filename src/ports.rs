//! The host's port handlers, and how an answer to an input becomes a word.
use vstd::prelude::*;

verus! {

/// What the host supplies to a run: a sink for `Output` operations and a source
/// for `Input` operations. Each operation reaches the handlers once, in the
/// order the program issues it.
pub trait PortHandlers {
    /// Receives the value that the program writes to `port`. A failure of the
    /// host stays with the host: the run goes on.
    fn output(&mut self, port: u16, value: u16);

    /// Answers a read of `port`; `None` when the host has no usable number.
    fn input(&mut self, port: u16) -> Option<u16>;
}

/// The word that an input operation hands to the program: the host's number,
/// or 0 where the host had none.
pub fn port_input_value(reply: Option<u16>) -> (r: u16)
    ensures
        r == match reply {
            Some(v) => v,
            None => 0u16,
        },
{
    match reply {
        Some(v) => v,
        None => 0,
    }
}

} // verus!
