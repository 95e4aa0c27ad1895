//! The callback sink: the receiver that the bus pushes inbound messages to.

use vstd::prelude::*;
use vstd::string::*;
use crate::status::Status;

verus! {

/// The record of a received message: a fixed heading and the message as it
/// was handed in.
pub open spec fn receipt(message: Seq<char>) -> Seq<char> {
    "received ParcelableUMessage: "@ + message
}

/// The listener that is installed with the bus at registration. It may be
/// called at any time after that, from a context that the bridge does not
/// own, and by several callers at once: it holds no state, never waits, and
/// always reports success to the transport.
#[derive(Clone, Copy, Debug)]
pub struct MyIUListener;

impl MyIUListener {
    /// Takes one inbound message, given in its printed form. The result is
    /// the record to write, which depends on the message alone; the call
    /// succeeds whatever the message holds, and changes nothing.
    pub fn on_receive(&self, message: &str) -> (record: Result<String, Status>)
        ensures
            record matches Ok(line) && line@ == receipt(message@),
    {
        let mut line = String::from_str("received ParcelableUMessage: ");
        line.append(message);
        Ok(line)
    }
}

} // verus!
