//! The wire-visible text of one tick: the entity list, the three fragment
//! kinds, and the snapshot envelope that holds them. Each builder's contract
//! gives the exact character sequence it produces; fragments are spliced
//! verbatim, so nothing here re-parses already-serialized text.

use vstd::prelude::*;

use crate::SerializableEntity;
use crate::json::{
    comma_join, dec_rep, int_rep, json_string_rep, push_i32_dec, push_json_string, push_u32_dec,
};

verus! {

/// One entity identifier as it appears on the wire.
pub open spec fn entity_rep(e: SerializableEntity) -> Seq<char> {
    "{\"id\":"@ + dec_rep(e.id as nat) + ",\"generation\":"@ + int_rep(e.generation as int)
        + "}"@
}

/// The wire items of the entity list, one per entity, in order.
pub open spec fn entity_list_items(es: Seq<SerializableEntity>) -> Seq<Seq<char>> {
    es.map_values(|e: SerializableEntity| entity_rep(e))
}

/// The entity list as a JSON array of entity identifiers.
pub open spec fn entities_rep(es: Seq<SerializableEntity>) -> Seq<char> {
    "["@ + comma_join(entity_list_items(es)) + "]"@
}

/// One keyed entry of an attribute fragment: the entity index, quoted, then
/// the record's pre-serialized text.
pub open spec fn record_entry_rep(entry: (u32, Seq<char>)) -> Seq<char> {
    "\""@ + dec_rep(entry.0 as nat) + "\":"@ + entry.1
}

/// An attribute fragment: the registered name and a map keyed by entity
/// index, holding each record's pre-serialized text verbatim.
pub open spec fn component_fragment_rep(name: Seq<char>, records: Seq<(u32, Seq<char>)>) -> Seq<
    char,
> {
    "{\"name\":"@ + json_string_rep(name) + ",\"data\":{"@ + comma_join(
        records.map_values(|entry: (u32, Seq<char>)| record_entry_rep(entry)),
    ) + "}}"@
}

/// A singleton fragment: the registered name and the record's pre-serialized
/// text verbatim.
pub open spec fn resource_fragment_rep(name: Seq<char>, data: Seq<char>) -> Seq<char> {
    "{\"name\":"@ + json_string_rep(name) + ",\"data\":"@ + data + "}"@
}

/// A free-form message fragment: a tag and a pre-serialized payload.
pub open spec fn message_rep(tag: Seq<char>, payload: Seq<char>) -> Seq<char> {
    "{\"type\":"@ + json_string_rep(tag) + ",\"data\":"@ + payload + "}"@
}

/// The complete snapshot envelope of one tick.
pub open spec fn envelope_rep(
    es: Seq<SerializableEntity>,
    components: Seq<Seq<char>>,
    resources: Seq<Seq<char>>,
    messages: Seq<Seq<char>>,
) -> Seq<char> {
    "{\"type\":\"message\",\"data\":{\"entities\":"@ + entities_rep(es) + ",\"components\":["@
        + comma_join(components) + "],\"resources\":["@ + comma_join(resources)
        + "],\"messages\":["@ + comma_join(messages) + "]}}"@
}

/// Whatever fragments a tick produced, and however many, the envelope opens
/// with the entity list of exactly the identifiers read at aggregation time:
/// one wire item per live entity, in order, with nothing added or dropped.
pub proof fn lemma_envelope_entities_exact(
    es: Seq<SerializableEntity>,
    components: Seq<Seq<char>>,
    resources: Seq<Seq<char>>,
    messages: Seq<Seq<char>>,
)
    ensures
        ("{\"type\":\"message\",\"data\":{\"entities\":"@ + entities_rep(es)).is_prefix_of(
            envelope_rep(es, components, resources, messages),
        ),
        entity_list_items(es).len() == es.len(),
        forall|i: int| 0 <= i < es.len() ==> entity_list_items(es)[i] == entity_rep(es[i]),
{
    let prefix = "{\"type\":\"message\",\"data\":{\"entities\":"@ + entities_rep(es);
    let whole = envelope_rep(es, components, resources, messages);
    assert(whole.subrange(0, prefix.len() as int) =~= prefix);
}

/// Zero populated entities for an attribute type yield a well-formed fragment
/// whose keyed map is empty, never a malformed one.
pub proof fn lemma_empty_component_fragment(name: Seq<char>)
    ensures
        component_fragment_rep(name, Seq::empty()) == "{\"name\":"@ + json_string_rep(name)
            + ",\"data\":{}}"@,
{
    reveal_strlit(",\"data\":{");
    reveal_strlit("}}");
    reveal_strlit(",\"data\":{}}");
    assert(component_fragment_rep(name, Seq::empty()) =~= "{\"name\":"@ + json_string_rep(name)
        + ",\"data\":{}}"@);
}

/// Appends one entity identifier to `out`.
fn push_entity(out: &mut String, e: &SerializableEntity)
    ensures
        final(out)@ == old(out)@ + entity_rep(*e),
{
    out.append("{\"id\":");
    push_u32_dec(out, e.id);
    out.append(",\"generation\":");
    push_i32_dec(out, e.generation);
    out.append("}");
}

/// Appends the JSON array of all entity identifiers, in order, to `out`.
pub fn push_entities(out: &mut String, es: &Vec<SerializableEntity>)
    ensures
        final(out)@ == old(out)@ + entities_rep(es@),
{
    out.append("[");
    let n: usize = es.len();
    let mut i: usize = 0;
    while i < n
        invariant
            n == es@.len(),
            i <= n,
            out@ == old(out)@ + "["@ + comma_join(entity_list_items(es@.take(i as int))),
        decreases n - i,
    {
        if i > 0 {
            out.append(",");
        }
        push_entity(out, &es[i]);
        proof {
            let items = entity_list_items(es@.take(i + 1 as int));
            assert(items =~= entity_list_items(es@.take(i as int)).push(entity_rep(es@[i as int])));
            if i == 0 {
                assert(comma_join(items) == items.last());
            } else {
                assert(items.drop_last() =~= entity_list_items(es@.take(i as int)));
                assert(comma_join(items) == comma_join(items.drop_last()) + ","@ + items.last());
            }
        }
        i = i + 1;
    }
    proof {
        assert(es@.take(n as int) =~= es@);
    }
    out.append("]");
}

/// Appends the pieces of `parts` in order, separated by commas, to `out`.
pub fn push_comma_join(out: &mut String, parts: &Vec<String>)
    ensures
        final(out)@ == old(out)@ + comma_join(parts@.map_values(|s: String| s@)),
{
    let n: usize = parts.len();
    let mut i: usize = 0;
    while i < n
        invariant
            n == parts@.len(),
            i <= n,
            out@ == old(out)@ + comma_join(parts@.take(i as int).map_values(|s: String| s@)),
        decreases n - i,
    {
        if i > 0 {
            out.append(",");
        }
        out.append(parts[i].as_str());
        proof {
            let items = parts@.take(i + 1 as int).map_values(|s: String| s@);
            assert(items =~= parts@.take(i as int).map_values(|s: String| s@).push(
                parts@[i as int]@,
            ));
            if i == 0 {
                assert(comma_join(items) == items.last());
            } else {
                assert(items.drop_last() =~= parts@.take(i as int).map_values(|s: String| s@));
                assert(comma_join(items) == comma_join(items.drop_last()) + ","@ + items.last());
            }
        }
        i = i + 1;
    }
    proof {
        assert(parts@.take(n as int) =~= parts@);
    }
}

/// Builds an attribute fragment from a registered name and the records read
/// this tick, each already serialized, keyed by entity index in the given
/// order.
pub fn component_fragment(name: &str, records: &Vec<(u32, String)>) -> (out: String)
    ensures
        out@ == component_fragment_rep(
            name@,
            records@.map_values(|entry: (u32, String)| (entry.0, entry.1@)),
        ),
{
    let mut out: String = String::new();
    out.append("{\"name\":");
    push_json_string(&mut out, name);
    out.append(",\"data\":{");
    let n: usize = records.len();
    let mut i: usize = 0;
    while i < n
        invariant
            n == records@.len(),
            i <= n,
            out@ == "{\"name\":"@ + json_string_rep(name@) + ",\"data\":{"@ + comma_join(
                records@.take(i as int).map_values(|entry: (u32, String)| (entry.0, entry.1@))
                    .map_values(|entry: (u32, Seq<char>)| record_entry_rep(entry)),
            ),
        decreases n - i,
    {
        if i > 0 {
            out.append(",");
        }
        out.append("\"");
        push_u32_dec(&mut out, records[i].0);
        out.append("\":");
        out.append(records[i].1.as_str());
        proof {
            let items = records@.take(i + 1 as int).map_values(
                |entry: (u32, String)| (entry.0, entry.1@),
            ).map_values(|entry: (u32, Seq<char>)| record_entry_rep(entry));
            let prev = records@.take(i as int).map_values(
                |entry: (u32, String)| (entry.0, entry.1@),
            ).map_values(|entry: (u32, Seq<char>)| record_entry_rep(entry));
            assert(items =~= prev.push(
                record_entry_rep((records@[i as int].0, records@[i as int].1@)),
            ));
            if i == 0 {
                assert(comma_join(items) == items.last());
            } else {
                assert(items.drop_last() =~= prev);
                assert(comma_join(items) == comma_join(items.drop_last()) + ","@ + items.last());
            }
        }
        i = i + 1;
    }
    proof {
        assert(records@.take(n as int) =~= records@);
    }
    out.append("}}");
    out
}

/// Builds a singleton fragment from a registered name and the record's
/// already-serialized text.
pub fn resource_fragment(name: &str, data: &str) -> (out: String)
    ensures
        out@ == resource_fragment_rep(name@, data@),
{
    let mut out: String = String::new();
    out.append("{\"name\":");
    push_json_string(&mut out, name);
    out.append(",\"data\":");
    out.append(data);
    out.append("}");
    out
}

/// Builds a free-form message fragment from a tag and an already-serialized
/// payload.
pub fn message_fragment(tag: &str, payload: &str) -> (out: String)
    ensures
        out@ == message_rep(tag@, payload@),
{
    let mut out: String = String::new();
    out.append("{\"type\":");
    push_json_string(&mut out, tag);
    out.append(",\"data\":");
    out.append(payload);
    out.append("}");
    out
}

/// Builds the snapshot envelope of one tick: the live entity identifiers and
/// the three ordered fragment lists, each fragment spliced verbatim.
pub fn build_envelope(
    entities: &Vec<SerializableEntity>,
    components: &Vec<String>,
    resources: &Vec<String>,
    messages: &Vec<String>,
) -> (out: String)
    ensures
        out@ == envelope_rep(
            entities@,
            components@.map_values(|s: String| s@),
            resources@.map_values(|s: String| s@),
            messages@.map_values(|s: String| s@),
        ),
{
    let mut out: String = String::new();
    out.append("{\"type\":\"message\",\"data\":{\"entities\":");
    push_entities(&mut out, entities);
    out.append(",\"components\":[");
    push_comma_join(&mut out, components);
    out.append("],\"resources\":[");
    push_comma_join(&mut out, resources);
    out.append("],\"messages\":[");
    push_comma_join(&mut out, messages);
    out.append("]}}");
    out
}

} // verus!
