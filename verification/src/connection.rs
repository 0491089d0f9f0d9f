//! A cloneable capability that only allows enqueueing fragments on the
//! outbound channel: holding one grants no read access to the channel or to
//! any record.

use vstd::prelude::*;

use crate::SerializedData;
use crate::channel::channel_send;
use crate::envelope::{message_fragment, message_rep};

verus! {

/// A connection to the editor: the producer end of the outbound channel.
#[derive(Clone)]
pub struct EditorConnection {
    sender: crossbeam_channel::Sender<SerializedData>,
}

impl EditorConnection {
    /// The producer handle this connection enqueues through.
    pub closed spec fn spec_sender(&self) -> crossbeam_channel::Sender<SerializedData> {
        self.sender
    }

    /// Wraps the producer end of the outbound channel.
    pub(crate) fn new(sender: crossbeam_channel::Sender<SerializedData>) -> (c: Self)
        ensures
            c.spec_sender() == sender,
    {
        EditorConnection { sender }
    }

    /// Enqueues one already-built fragment; never blocks.
    pub(crate) fn send_data(&self, data: SerializedData) {
        channel_send(&self.sender, data);
    }

    /// Sends a free-form message: the payload, already serialized, is wrapped
    /// in the tag envelope and enqueued as a message fragment; the returned
    /// copy is exactly the text that was enqueued. Never blocks.
    pub fn send_message(&self, message_type: &str, data: &str) -> (fragment: String)
        ensures
            fragment@ == message_rep(message_type@, data@),
    {
        let fragment: String = message_fragment(message_type, data);
        self.send_data(SerializedData::Message(fragment.clone()));
        fragment
    }
}

} // verus!
