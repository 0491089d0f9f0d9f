//! The aggregator: the single consumer of the outbound channel. Once per
//! tick, strictly after every producer has finished, it drains the channel,
//! classifies the fragments by category in arrival order, assembles the
//! snapshot envelope around the live entity list, frames it with the
//! terminator and splits it into datagram-sized chunks. Sending the chunks
//! over a socket is the embedding host's step.

use vstd::prelude::*;

use crate::SerializableEntity;
use crate::SerializedData;
use crate::channel::{channel_unbounded, drain};
use crate::connection::EditorConnection;
use crate::envelope::{build_envelope, envelope_rep};
use crate::transport::{concat_datagrams, frame_and_split, terminator};
use crate::MAX_PACKET_SIZE;
use vstd::utf8::encode_utf8;

verus! {

/// The attribute fragments among `items`, in arrival order.
pub open spec fn components_of(items: Seq<SerializedData>) -> Seq<Seq<char>>
    decreases items.len(),
{
    if items.len() == 0 {
        Seq::empty()
    } else {
        let rest = components_of(items.drop_last());
        match items.last() {
            SerializedData::Component(s) => rest.push(s@),
            _ => rest,
        }
    }
}

/// The singleton fragments among `items`, in arrival order.
pub open spec fn resources_of(items: Seq<SerializedData>) -> Seq<Seq<char>>
    decreases items.len(),
{
    if items.len() == 0 {
        Seq::empty()
    } else {
        let rest = resources_of(items.drop_last());
        match items.last() {
            SerializedData::Resource(s) => rest.push(s@),
            _ => rest,
        }
    }
}

/// The free-form message fragments among `items`, in arrival order.
pub open spec fn messages_of(items: Seq<SerializedData>) -> Seq<Seq<char>>
    decreases items.len(),
{
    if items.len() == 0 {
        Seq::empty()
    } else {
        let rest = messages_of(items.drop_last());
        match items.last() {
            SerializedData::Message(s) => rest.push(s@),
            _ => rest,
        }
    }
}

/// `datagrams` is the transmission of the snapshot of one tick whose live
/// entities are `entities` and whose drained fragments are `items`: every
/// datagram but the last is exactly one packet, none is larger, and their
/// bytes concatenated in order are the UTF-8 envelope text followed by the
/// one terminator.
pub open spec fn is_snapshot_transmission(
    entities: Seq<SerializableEntity>,
    items: Seq<SerializedData>,
    datagrams: Seq<Seq<u8>>,
) -> bool {
    &&& concat_datagrams(datagrams) == encode_utf8(
        envelope_rep(entities, components_of(items), resources_of(items), messages_of(items))
            + seq![terminator()],
    )
    &&& datagrams.len() > 0
    &&& forall|i: int| 0 <= i < datagrams.len() ==> #[trigger] datagrams[i].len()
        <= MAX_PACKET_SIZE
    &&& forall|i: int| 0 <= i < datagrams.len() - 1 ==> #[trigger] datagrams[i].len()
        == MAX_PACKET_SIZE
    &&& datagrams.last().len() > 0
}

/// Splits drained fragments into the three category lists, keeping arrival
/// order within each category.
pub fn classify(items: &Vec<SerializedData>) -> (r: (Vec<String>, Vec<String>, Vec<String>))
    ensures
        r.0@.map_values(|s: String| s@) == components_of(items@),
        r.1@.map_values(|s: String| s@) == resources_of(items@),
        r.2@.map_values(|s: String| s@) == messages_of(items@),
{
    let mut components: Vec<String> = Vec::new();
    let mut resources: Vec<String> = Vec::new();
    let mut messages: Vec<String> = Vec::new();
    let n: usize = items.len();
    let mut i: usize = 0;
    while i < n
        invariant
            n == items@.len(),
            i <= n,
            components@.map_values(|s: String| s@) == components_of(items@.take(i as int)),
            resources@.map_values(|s: String| s@) == resources_of(items@.take(i as int)),
            messages@.map_values(|s: String| s@) == messages_of(items@.take(i as int)),
        decreases n - i,
    {
        let ghost prev_c = components@.map_values(|s: String| s@);
        let ghost prev_r = resources@.map_values(|s: String| s@);
        let ghost prev_m = messages@.map_values(|s: String| s@);
        match &items[i] {
            SerializedData::Component(s) => components.push(s.clone()),
            SerializedData::Resource(s) => resources.push(s.clone()),
            SerializedData::Message(s) => messages.push(s.clone()),
        }
        proof {
            assert(items@.take(i + 1 as int).drop_last() =~= items@.take(i as int));
            assert(items@.take(i + 1 as int).last() == items@[i as int]);
            match items@[i as int] {
                SerializedData::Component(s) => {
                    assert(components@.map_values(|s: String| s@) =~= prev_c.push(s@));
                },
                SerializedData::Resource(s) => {
                    assert(resources@.map_values(|s: String| s@) =~= prev_r.push(s@));
                },
                SerializedData::Message(s) => {
                    assert(messages@.map_values(|s: String| s@) =~= prev_m.push(s@));
                },
            }
        }
        i = i + 1;
    }
    proof {
        assert(items@.take(n as int) =~= items@);
    }
    (components, resources, messages)
}

/// Assembles and frames one tick's snapshot from the live entity list and the
/// fragments drained this tick. The entity list in the envelope is exactly
/// `entities`, whatever the fragments are; each fragment appears verbatim in
/// its category's list, in arrival order.
pub fn compose_snapshot(entities: &Vec<SerializableEntity>, items: &Vec<SerializedData>) -> (r:
    Vec<Vec<u8>>)
    ensures
        is_snapshot_transmission(entities@, items@, r@.map_values(|c: Vec<u8>| c@)),
{
    let (components, resources, messages) = classify(items);
    let envelope: String = build_envelope(entities, &components, &resources, &messages);
    frame_and_split(envelope)
}

/// Coordinates the producers' fragments: drains the outbound channel once per
/// tick and turns the result into one framed, chunked transmission.
pub struct SyncEditorSystem {
    /// The consumer end of the outbound channel.
    pub receiver: crossbeam_channel::Receiver<SerializedData>,
    /// A producer end kept for handing out connections.
    pub sender: crossbeam_channel::Sender<SerializedData>,
}

impl Default for SyncEditorSystem {
    /// An aggregator over a fresh outbound channel.
    fn default() -> Self {
        SyncEditorSystem::new()
    }
}

impl SyncEditorSystem {
    /// An aggregator over a fresh outbound channel.
    pub fn new() -> Self {
        let (sender, receiver) = channel_unbounded();
        Self::from_channel(sender, receiver)
    }

    /// An aggregator over the given channel ends.
    pub(crate) fn from_channel(
        sender: crossbeam_channel::Sender<SerializedData>,
        receiver: crossbeam_channel::Receiver<SerializedData>,
    ) -> (s: Self)
        ensures
            s.sender == sender,
            s.receiver == receiver,
    {
        SyncEditorSystem { receiver, sender }
    }

    /// A connection that can enqueue free-form messages into this aggregator:
    /// it wraps a duplicate of this aggregator's own producer end, so what it
    /// sends is drained by `run`.
    pub fn get_connection(&self) -> (r: EditorConnection)
        ensures
            r.spec_sender() == self.sender,
    {
        EditorConnection::new(self.sender.clone())
    }

    /// One tick, run strictly after the produce-phase barrier: drains the
    /// channel and builds the datagrams of this tick's snapshot around the
    /// live entity list read at aggregation time. Whatever the channel held,
    /// the result is a snapshot transmission of `entities` and the drained
    /// fragments; the caller sends the datagrams in order.
    pub fn run(&self, entities: &Vec<SerializableEntity>) -> (r: Vec<Vec<u8>>)
        ensures
            exists|items: Seq<SerializedData>|
                #[trigger] is_snapshot_transmission(entities@, items, r.deep_view()),
    {
        let items: Vec<SerializedData> = drain(&self.receiver);
        let r = compose_snapshot(entities, &items);
        proof {
            assert(r.deep_view() =~~= r@.map_values(|c: Vec<u8>| c@));
            assert(is_snapshot_transmission(entities@, items@, r.deep_view()));
        }
        r
    }
}

} // verus!
