//! Framing and chunking for the datagram transport: one terminator character
//! is appended to the envelope text, the framed text is encoded to bytes, and
//! the bytes are split into consecutive windows no larger than one datagram.
//! Concatenating the windows in send order reconstructs the framed bytes
//! exactly; the receiver reassembles until it sees the terminator.

use vstd::prelude::*;
use vstd::slice::{slice_subrange, slice_to_vec};
use vstd::utf8::{encode_scalar, encode_utf8};

use crate::MAX_PACKET_SIZE;
use crate::SerializableEntity;
use crate::envelope::{
    component_fragment_rep, entities_rep, entity_list_items, entity_rep, envelope_rep, message_rep,
    record_entry_rep, resource_fragment_rep,
};
use crate::json::{comma_join, dec_rep, escaped, escaped_char, int_rep, json_string_rep};

verus! {

/// The message-terminator character: form feed, which never occurs inside
/// valid JSON document text.
pub open spec fn terminator() -> char {
    '\u{c}'
}

/// The bytes of `chunks`, concatenated in order.
pub open spec fn concat_datagrams(chunks: Seq<Seq<u8>>) -> Seq<u8>
    decreases chunks.len(),
{
    if chunks.len() == 0 {
        Seq::empty()
    } else {
        concat_datagrams(chunks.drop_last()) + chunks.last()
    }
}

/// A UTF-8 encoding is never shorter than the character sequence it encodes:
/// every scalar takes at least one byte.
pub proof fn lemma_encode_utf8_len(chars: Seq<char>)
    ensures
        encode_utf8(chars).len() >= chars.len(),
    decreases chars.len(),
{
    if chars.len() > 0 {
        lemma_encode_utf8_len(chars.drop_first());
        assert(encode_scalar(chars[0] as u32).len() >= 1);
    }
}

/// Splits `bytes` into consecutive windows: every window but the last holds
/// exactly `MAX_PACKET_SIZE` bytes, the last is nonempty and no larger, and
/// the windows concatenated in order are exactly `bytes`.
pub fn split_into_datagrams(bytes: &Vec<u8>) -> (chunks: Vec<Vec<u8>>)
    requires
        bytes@.len() > 0,
    ensures
        concat_datagrams(chunks@.map_values(|c: Vec<u8>| c@)) == bytes@,
        chunks@.len() > 0,
        forall|i: int|
            0 <= i < chunks@.len() ==> #[trigger] chunks@[i]@.len() <= MAX_PACKET_SIZE,
        forall|i: int|
            0 <= i < chunks@.len() - 1 ==> #[trigger] chunks@[i]@.len() == MAX_PACKET_SIZE,
        chunks@.last()@.len() > 0,
{
    let mut chunks: Vec<Vec<u8>> = Vec::new();
    let len: usize = bytes.len();
    let mut pos: usize = 0;
    while pos < len
        invariant
            pos <= len,
            len == bytes@.len(),
            concat_datagrams(chunks@.map_values(|c: Vec<u8>| c@)) == bytes@.take(pos as int),
            forall|i: int|
                0 <= i < chunks@.len() ==> 0 < #[trigger] chunks@[i]@.len() <= MAX_PACKET_SIZE,
            forall|i: int|
                0 <= i < chunks@.len() ==> (#[trigger] chunks@[i]@.len() == MAX_PACKET_SIZE || (i
                    == chunks@.len() - 1 && pos == len)),
        decreases len - pos,
    {
        let remaining: usize = len - pos;
        let take_n: usize = if remaining < MAX_PACKET_SIZE {
            remaining
        } else {
            MAX_PACKET_SIZE
        };
        let ghost prev_views = chunks@.map_values(|c: Vec<u8>| c@);
        let window: &[u8] = slice_subrange(bytes.as_slice(), pos, pos + take_n);
        let chunk: Vec<u8> = slice_to_vec(window);
        proof {
            assert(chunk@ == bytes@.subrange(pos as int, pos + take_n as int));
        }
        chunks.push(chunk);
        proof {
            let views = chunks@.map_values(|c: Vec<u8>| c@);
            assert(views.drop_last() =~= prev_views);
            assert(concat_datagrams(views) == concat_datagrams(prev_views) + views.last());
            assert(bytes@.take(pos as int) + bytes@.subrange(pos as int, pos + take_n as int)
                =~= bytes@.take(pos + take_n as int));
        }
        pos = pos + take_n;
    }
    proof {
        assert(bytes@.take(len as int) =~= bytes@);
        assert(concat_datagrams(chunks@.map_values(|c: Vec<u8>| c@)).len() == bytes@.len());
        lemma_concat_len(chunks@.map_values(|c: Vec<u8>| c@));
    }
    chunks
}

/// Concatenating an empty list of chunks gives no bytes, so a nonempty
/// concatenation comes from a nonempty list.
pub proof fn lemma_concat_len(chunks: Seq<Seq<u8>>)
    ensures
        chunks.len() == 0 ==> concat_datagrams(chunks).len() == 0,
{
}

/// Text in which the terminator character never occurs, as valid JSON
/// document text guarantees.
pub open spec fn terminator_free(s: Seq<char>) -> bool {
    forall|i: int| 0 <= i < s.len() ==> s[i] != terminator()
}

/// Terminator-free pieces concatenate to terminator-free text.
pub proof fn lemma_tf_concat(a: Seq<char>, b: Seq<char>)
    requires
        terminator_free(a),
        terminator_free(b),
    ensures
        terminator_free(a + b),
{
    assert forall|i: int| 0 <= i < (a + b).len() implies (a + b)[i] != terminator() by {
        if i < a.len() {
            assert((a + b)[i] == a[i]);
        } else {
            assert((a + b)[i] == b[i - a.len()]);
        }
    }
}

/// Decimal renderings hold only digit characters, never the terminator.
pub proof fn lemma_tf_dec_rep(n: nat)
    ensures
        terminator_free(dec_rep(n)),
    decreases n,
{
    if n >= 10 {
        lemma_tf_dec_rep(n / 10);
        lemma_tf_concat(dec_rep(n / 10), seq![crate::json::digit_char((n % 10) as int)]);
        assert(dec_rep(n) =~= dec_rep(n / 10) + seq![crate::json::digit_char((n % 10) as int)]);
    }
}

/// Signed decimal renderings never hold the terminator.
pub proof fn lemma_tf_int_rep(n: int)
    ensures
        terminator_free(int_rep(n)),
{
    if n < 0 {
        lemma_tf_dec_rep((-n) as nat);
        lemma_tf_concat(seq!['-'], dec_rep((-n) as nat));
    } else {
        lemma_tf_dec_rep(n as nat);
    }
}

/// Escaping never produces the terminator: control characters, the terminator
/// among them, leave only as `\u00XX`.
pub proof fn lemma_tf_escaped(s: Seq<char>)
    ensures
        terminator_free(escaped(s)),
    decreases s.len(),
{
    if s.len() > 0 {
        lemma_tf_escaped(s.drop_last());
        assert(terminator_free(escaped_char(s.last())));
        lemma_tf_concat(escaped(s.drop_last()), escaped_char(s.last()));
    }
}

/// A JSON string literal built by escaping never holds the terminator.
pub proof fn lemma_tf_json_string(s: Seq<char>)
    ensures
        terminator_free(json_string_rep(s)),
{
    reveal_strlit("\"");
    lemma_tf_escaped(s);
    lemma_tf_concat("\""@, escaped(s));
    lemma_tf_concat("\""@ + escaped(s), "\""@);
}

/// A comma-join of terminator-free pieces is terminator-free.
pub proof fn lemma_tf_comma_join(parts: Seq<Seq<char>>)
    requires
        forall|i: int| 0 <= i < parts.len() ==> terminator_free(#[trigger] parts[i]),
    ensures
        terminator_free(comma_join(parts)),
    decreases parts.len(),
{
    reveal_strlit(",");
    if parts.len() > 1 {
        lemma_tf_comma_join(parts.drop_last());
        lemma_tf_concat(comma_join(parts.drop_last()), ","@);
        lemma_tf_concat(comma_join(parts.drop_last()) + ","@, parts.last());
    }
}

/// One entity identifier's wire text never holds the terminator.
pub proof fn lemma_tf_entity_rep(e: SerializableEntity)
    ensures
        terminator_free(entity_rep(e)),
{
    reveal_strlit("{\"id\":");
    reveal_strlit(",\"generation\":");
    reveal_strlit("}");
    lemma_tf_dec_rep(e.id as nat);
    lemma_tf_int_rep(e.generation as int);
    lemma_tf_concat("{\"id\":"@, dec_rep(e.id as nat));
    lemma_tf_concat("{\"id\":"@ + dec_rep(e.id as nat), ",\"generation\":"@);
    lemma_tf_concat(
        "{\"id\":"@ + dec_rep(e.id as nat) + ",\"generation\":"@,
        int_rep(e.generation as int),
    );
    lemma_tf_concat(
        "{\"id\":"@ + dec_rep(e.id as nat) + ",\"generation\":"@ + int_rep(e.generation as int),
        "}"@,
    );
}

/// The entity list's wire text never holds the terminator.
pub proof fn lemma_tf_entities_rep(es: Seq<SerializableEntity>)
    ensures
        terminator_free(entities_rep(es)),
{
    reveal_strlit("[");
    reveal_strlit("]");
    assert forall|i: int| 0 <= i < entity_list_items(es).len() implies terminator_free(
        #[trigger] entity_list_items(es)[i],
    ) by {
        lemma_tf_entity_rep(es[i]);
    }
    lemma_tf_comma_join(entity_list_items(es));
    lemma_tf_concat("["@, comma_join(entity_list_items(es)));
    lemma_tf_concat("["@ + comma_join(entity_list_items(es)), "]"@);
}

/// A singleton fragment built over terminator-free record text is itself
/// terminator-free, so it meets the envelope's framing hypothesis.
pub proof fn lemma_tf_resource_fragment(name: Seq<char>, data: Seq<char>)
    requires
        terminator_free(data),
    ensures
        terminator_free(resource_fragment_rep(name, data)),
{
    reveal_strlit("{\"name\":");
    reveal_strlit(",\"data\":");
    reveal_strlit("}");
    lemma_tf_json_string(name);
    lemma_tf_concat("{\"name\":"@, json_string_rep(name));
    lemma_tf_concat("{\"name\":"@ + json_string_rep(name), ",\"data\":"@);
    lemma_tf_concat("{\"name\":"@ + json_string_rep(name) + ",\"data\":"@, data);
    lemma_tf_concat("{\"name\":"@ + json_string_rep(name) + ",\"data\":"@ + data, "}"@);
}

/// A free-form message fragment built over terminator-free payload text is
/// itself terminator-free.
pub proof fn lemma_tf_message_rep(tag: Seq<char>, payload: Seq<char>)
    requires
        terminator_free(payload),
    ensures
        terminator_free(message_rep(tag, payload)),
{
    reveal_strlit("{\"type\":");
    reveal_strlit(",\"data\":");
    reveal_strlit("}");
    lemma_tf_json_string(tag);
    lemma_tf_concat("{\"type\":"@, json_string_rep(tag));
    lemma_tf_concat("{\"type\":"@ + json_string_rep(tag), ",\"data\":"@);
    lemma_tf_concat("{\"type\":"@ + json_string_rep(tag) + ",\"data\":"@, payload);
    lemma_tf_concat("{\"type\":"@ + json_string_rep(tag) + ",\"data\":"@ + payload, "}"@);
}

/// An attribute fragment built over terminator-free record texts is itself
/// terminator-free.
pub proof fn lemma_tf_component_fragment(name: Seq<char>, records: Seq<(u32, Seq<char>)>)
    requires
        forall|i: int| 0 <= i < records.len() ==> terminator_free(#[trigger] records[i].1),
    ensures
        terminator_free(component_fragment_rep(name, records)),
{
    reveal_strlit("{\"name\":");
    reveal_strlit(",\"data\":{");
    reveal_strlit("}}");
    reveal_strlit("\"");
    reveal_strlit("\":");
    lemma_tf_json_string(name);
    let entries = records.map_values(|entry: (u32, Seq<char>)| record_entry_rep(entry));
    assert forall|i: int| 0 <= i < entries.len() implies terminator_free(
        #[trigger] entries[i],
    ) by {
        lemma_tf_dec_rep(records[i].0 as nat);
        lemma_tf_concat("\""@, dec_rep(records[i].0 as nat));
        lemma_tf_concat("\""@ + dec_rep(records[i].0 as nat), "\":"@);
        lemma_tf_concat("\""@ + dec_rep(records[i].0 as nat) + "\":"@, records[i].1);
    }
    lemma_tf_comma_join(entries);
    lemma_tf_concat("{\"name\":"@, json_string_rep(name));
    lemma_tf_concat("{\"name\":"@ + json_string_rep(name), ",\"data\":{"@);
    lemma_tf_concat("{\"name\":"@ + json_string_rep(name) + ",\"data\":{"@, comma_join(entries));
    lemma_tf_concat(
        "{\"name\":"@ + json_string_rep(name) + ",\"data\":{"@ + comma_join(entries),
        "}}"@,
    );
}

/// The snapshot envelope of terminator-free fragments is terminator-free, so
/// the framed message - the envelope plus the one appended terminator - holds
/// the terminator exactly once, at its end. This is what lets the receiver
/// reassemble datagrams by scanning for the terminator.
pub proof fn lemma_envelope_terminator_free(
    es: Seq<SerializableEntity>,
    components: Seq<Seq<char>>,
    resources: Seq<Seq<char>>,
    messages: Seq<Seq<char>>,
)
    requires
        forall|i: int| 0 <= i < components.len() ==> terminator_free(#[trigger] components[i]),
        forall|i: int| 0 <= i < resources.len() ==> terminator_free(#[trigger] resources[i]),
        forall|i: int| 0 <= i < messages.len() ==> terminator_free(#[trigger] messages[i]),
    ensures
        terminator_free(envelope_rep(es, components, resources, messages)),
        (envelope_rep(es, components, resources, messages) + seq![terminator()]).last()
            == terminator(),
{
    reveal_strlit("{\"type\":\"message\",\"data\":{\"entities\":");
    reveal_strlit(",\"components\":[");
    reveal_strlit("],\"resources\":[");
    reveal_strlit("],\"messages\":[");
    reveal_strlit("]}}");
    lemma_tf_entities_rep(es);
    lemma_tf_comma_join(components);
    lemma_tf_comma_join(resources);
    lemma_tf_comma_join(messages);
    let p1 = "{\"type\":\"message\",\"data\":{\"entities\":"@;
    let p2 = ",\"components\":["@;
    let p3 = "],\"resources\":["@;
    let p4 = "],\"messages\":["@;
    let p5 = "]}}"@;
    lemma_tf_concat(p1, entities_rep(es));
    lemma_tf_concat(p1 + entities_rep(es), p2);
    lemma_tf_concat(p1 + entities_rep(es) + p2, comma_join(components));
    lemma_tf_concat(p1 + entities_rep(es) + p2 + comma_join(components), p3);
    lemma_tf_concat(
        p1 + entities_rep(es) + p2 + comma_join(components) + p3,
        comma_join(resources),
    );
    lemma_tf_concat(
        p1 + entities_rep(es) + p2 + comma_join(components) + p3 + comma_join(resources),
        p4,
    );
    lemma_tf_concat(
        p1 + entities_rep(es) + p2 + comma_join(components) + p3 + comma_join(resources) + p4,
        comma_join(messages),
    );
    lemma_tf_concat(
        p1 + entities_rep(es) + p2 + comma_join(components) + p3 + comma_join(resources) + p4
            + comma_join(messages),
        p5,
    );
}

/// Appends the terminator, encodes the framed text to bytes, and splits the
/// bytes into datagram-sized windows. Concatenating the windows in send order
/// yields exactly the UTF-8 bytes of the envelope followed by the terminator.
pub fn frame_and_split(envelope: String) -> (chunks: Vec<Vec<u8>>)
    ensures
        concat_datagrams(chunks@.map_values(|c: Vec<u8>| c@)) == encode_utf8(
            envelope@ + seq![terminator()],
        ),
        chunks@.len() > 0,
        forall|i: int|
            0 <= i < chunks@.len() ==> #[trigger] chunks@[i]@.len() <= MAX_PACKET_SIZE,
        forall|i: int|
            0 <= i < chunks@.len() - 1 ==> #[trigger] chunks@[i]@.len() == MAX_PACKET_SIZE,
        chunks@.last()@.len() > 0,
{
    let mut framed: String = envelope;
    framed.append("\u{c}");
    proof {
        reveal_strlit("\u{c}");
        assert("\u{c}"@ =~= seq![terminator()]);
        lemma_encode_utf8_len(framed@);
    }
    let bytes: Vec<u8> = framed.as_str().as_bytes_vec();
    split_into_datagrams(&bytes)
}

} // verus!
