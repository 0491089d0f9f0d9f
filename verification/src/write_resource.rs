//! The inbound update channel: raw update payloads arrive from the observer
//! for one registered singleton type. Each tick, if the singleton is present,
//! the queue is drained and every successfully decoded payload overwrites the
//! singleton in place, so the last successful one wins; malformed payloads
//! are discarded one by one. While the singleton is absent the queue is left
//! untouched. Decoding a payload into the concrete record type is the
//! embedding host's step: the selection logic here is verified for every
//! possible sequence of decode outcomes.

use vstd::prelude::*;

use crate::channel::drain;

verus! {

#[verifier::external_type_specification]
#[verifier::external_body]
pub struct ExValue(serde_json::Value);

/// The last update among `updates` that decoded successfully, if any.
pub open spec fn last_decoded<T>(updates: Seq<Option<T>>) -> Option<T>
    decreases updates.len(),
{
    if updates.len() == 0 {
        None
    } else if updates.last() is Some {
        updates.last()
    } else {
        last_decoded(updates.drop_last())
    }
}

/// The winning update is positional: if the update at index `j` decoded
/// successfully and every later one failed, then `j`'s value is the one that
/// `last_decoded` selects - the malformed ones after it are skipped
/// individually, and the successful ones before it are each overwritten.
pub proof fn lemma_last_writer_wins<T>(updates: Seq<Option<T>>, j: int)
    requires
        0 <= j < updates.len(),
        updates[j] is Some,
        forall|k: int| j < k < updates.len() ==> !(#[trigger] updates[k] is Some),
    ensures
        last_decoded(updates) == updates[j],
    decreases updates.len(),
{
    if j == updates.len() - 1 {
    } else {
        assert(updates.drop_last()[j] == updates[j]);
        lemma_last_writer_wins(updates.drop_last(), j);
    }
}

/// Picks the update that wins the tick: the last one that decoded
/// successfully, or nothing when none did. Consumes the queue it examines.
pub fn select_update<T>(updates: &mut Vec<Option<T>>) -> (r: Option<T>)
    ensures
        r == last_decoded(old(updates)@),
{
    while updates.len() > 0
        invariant
            last_decoded(updates@) == last_decoded(old(updates)@),
        decreases updates@.len(),
    {
        let ghost pre = updates@;
        match updates.pop() {
            Some(update) => {
                match update {
                    Some(value) => {
                        proof {
                            assert(pre.last() == Some(value));
                            assert(last_decoded(pre) == Some(value));
                        }
                        return Some(value);
                    },
                    None => {
                        proof {
                            assert(pre.last() == None::<T>);
                            assert(updates@ =~= pre.drop_last());
                            assert(last_decoded(pre) == last_decoded(pre.drop_last()));
                        }
                    },
                }
            },
            None => {},
        }
    }
    None
}

/// Applies one tick's decoded updates to the live singleton: every successful
/// decode overwrites it in place, so it ends at the last successful one; when
/// none decoded, or the singleton is absent, it is left as it was. Consumes
/// the update queue.
pub fn apply_updates<T>(resource: &mut Option<T>, updates: &mut Vec<Option<T>>)
    ensures
        *final(resource) == (match last_decoded(old(updates)@) {
            Some(value) => if *old(resource) is Some {
                Some(value)
            } else {
                *old(resource)
            },
            None => *old(resource),
        }),
{
    if resource.is_some() {
        match select_update(updates) {
            Some(value) => {
                *resource = Some(value);
            },
            None => {},
        }
    }
}

/// Receives raw update payloads for one registered singleton type and applies
/// them to the live instance each tick.
pub struct WriteResourceSystem {
    /// The receiving end of this type's inbound update channel.
    pub incoming: crossbeam_channel::Receiver<serde_json::Value>,
}

impl WriteResourceSystem {
    /// A system draining `incoming` into its singleton.
    pub fn new(incoming: crossbeam_channel::Receiver<serde_json::Value>) -> (s: Self)
        ensures
            s.incoming == incoming,
    {
        WriteResourceSystem { incoming }
    }

    /// One tick's intake: when the singleton is present, drains the queued
    /// payloads for decoding; when it is absent, leaves them queued for a
    /// later tick and returns none. The host decodes each payload into the
    /// record type and hands the outcomes to `apply_updates`.
    pub fn drain_pending<T>(&self, resource: &Option<T>) -> (payloads: Vec<serde_json::Value>)
        ensures
            resource is None ==> payloads@.len() == 0,
    {
        if resource.is_some() {
            drain(&self.incoming)
        } else {
            Vec::new()
        }
    }
}

} // verus!
