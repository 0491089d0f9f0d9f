//! The per-type producers. Each tick, an attribute producer turns the records
//! read for its registered type into one fragment, and a singleton producer
//! turns the single instance, when present, into one fragment; an absent
//! singleton yields a diagnostic instead. Records arrive already serialized:
//! the concrete encoding of a record type is pluggable and stays outside.

use vstd::prelude::*;

use crate::SerializedData;
use crate::connection::EditorConnection;
use crate::envelope::{
    component_fragment, component_fragment_rep, resource_fragment, resource_fragment_rep,
};

verus! {

/// The diagnostic text reported when a registered singleton is absent.
pub open spec fn absent_warning_rep(name: Seq<char>) -> Seq<char> {
    "Resource named "@ + name + " wasn't registered and will not show up in the editor"@
}

/// The all-or-nothing rule of an attribute producer: the tick's records of
/// one type, each either serialized or failed, yield the full list of texts
/// exactly when every record serialized; one failure suppresses them all, so
/// no partial fragment is ever emitted.
pub fn gather_records(records: &Vec<(u32, Option<String>)>) -> (r: Option<Vec<(u32, String)>>)
    ensures
        r is Some <==> (forall|i: int|
            0 <= i < records@.len() ==> (#[trigger] records@[i]).1 is Some),
        r matches Some(texts) ==> texts@.map_values(|entry: (u32, String)| (entry.0, entry.1@))
            == records@.map_values(
            |entry: (u32, Option<String>)| (entry.0, entry.1->Some_0@),
        ),
{
    let mut texts: Vec<(u32, String)> = Vec::new();
    let n: usize = records.len();
    let mut i: usize = 0;
    while i < n
        invariant
            n == records@.len(),
            i <= n,
            forall|j: int| 0 <= j < i ==> (#[trigger] records@[j]).1 is Some,
            texts@.map_values(|entry: (u32, String)| (entry.0, entry.1@)) == records@.take(
                i as int,
            ).map_values(|entry: (u32, Option<String>)| (entry.0, entry.1->Some_0@)),
        decreases n - i,
    {
        let ghost prev = texts@.map_values(|entry: (u32, String)| (entry.0, entry.1@));
        match &records[i].1 {
            Some(text) => {
                texts.push((records[i].0, text.clone()));
                proof {
                    assert(texts@.map_values(|entry: (u32, String)| (entry.0, entry.1@))
                        =~= prev.push((records@[i as int].0, records@[i as int].1->Some_0@)));
                    assert(records@.take(i + 1 as int).map_values(
                        |entry: (u32, Option<String>)| (entry.0, entry.1->Some_0@),
                    ) =~= records@.take(i as int).map_values(
                        |entry: (u32, Option<String>)| (entry.0, entry.1->Some_0@),
                    ).push((records@[i as int].0, records@[i as int].1->Some_0@)));
                }
            },
            None => {
                proof {
                    assert(!(records@[i as int].1 is Some));
                }
                return None;
            },
        }
        i = i + 1;
    }
    proof {
        assert(records@.take(n as int) =~= records@);
    }
    Some(texts)
}

/// Serializes all records of one registered attribute type into one fragment
/// per tick and emits it on the outbound channel.
pub struct SyncComponentSystem {
    /// The registered display name: the wire-visible key of this type.
    pub name: &'static str,
    /// The producer end of the outbound channel.
    pub connection: EditorConnection,
}

impl SyncComponentSystem {
    /// A producer for the attribute type registered under `name`, emitting on
    /// the channel behind `connection`.
    pub fn new(name: &'static str, connection: EditorConnection) -> (s: Self)
        ensures
            s.name@ == name@,
            s.connection == connection,
    {
        SyncComponentSystem { name, connection }
    }

    /// One tick: builds the attribute fragment for the records read this tick
    /// - each an entity index with the record's already-serialized text - and
    /// enqueues it. The fragment's text is exactly
    /// `component_fragment_rep(self.name@, ...)` over the given pairs, in the
    /// given order; the returned copy is what was enqueued.
    pub fn run(&self, records: &Vec<(u32, String)>) -> (fragment: String)
        ensures
            fragment@ == component_fragment_rep(
                self.name@,
                records@.map_values(|entry: (u32, String)| (entry.0, entry.1@)),
            ),
    {
        let fragment: String = component_fragment(self.name, records);
        self.connection.send_data(SerializedData::Component(fragment.clone()));
        fragment
    }
}

/// Serializes one registered singleton record into one fragment per tick,
/// when it is present, and emits it on the outbound channel; an absent
/// singleton yields a diagnostic and no fragment.
pub struct SyncResourceSystem {
    /// The registered display name: the wire-visible key of this type.
    pub name: &'static str,
    /// The producer end of the outbound channel.
    pub connection: EditorConnection,
}

impl SyncResourceSystem {
    /// A producer for the singleton type registered under `name`, emitting on
    /// the channel behind `connection`.
    pub fn new(name: &'static str, connection: EditorConnection) -> (s: Self)
        ensures
            s.name@ == name@,
            s.connection == connection,
    {
        SyncResourceSystem { name, connection }
    }

    /// One tick: when the singleton is present (its already-serialized text
    /// is given), builds and enqueues its fragment and returns it; when it is
    /// absent, enqueues nothing and returns the diagnostic instead. Exactly
    /// one of the two results comes back, matching presence.
    pub fn run(&self, resource: Option<&String>) -> (outcome: Result<String, String>)
        ensures
            resource is Some <==> outcome is Ok,
            outcome matches Ok(fragment) ==> fragment@ == resource_fragment_rep(
                self.name@,
                resource->Some_0@,
            ),
            outcome matches Err(diagnostic) ==> diagnostic@ == absent_warning_rep(self.name@),
    {
        match resource {
            Some(data) => {
                let fragment: String = resource_fragment(self.name, data.as_str());
                self.connection.send_data(SerializedData::Resource(fragment.clone()));
                Ok(fragment)
            },
            None => {
                let mut diagnostic: String = String::new();
                diagnostic.append("Resource named ");
                diagnostic.append(self.name);
                diagnostic.append(" wasn't registered and will not show up in the editor");
                Err(diagnostic)
            },
        }
    }
}

} // verus!
