//! End-to-end checks: producers feeding the shared channel, the aggregator's
//! framed transmission, chunking of oversized snapshots, and the inbound
//! update channel's last-writer-wins behavior.

use editor_sync::MAX_PACKET_SIZE;
use editor_sync::SerializableEntity;
use editor_sync::bundle::SyncEditorBundle;
use editor_sync::producers::gather_records;
use editor_sync::sync_editor::SyncEditorSystem;
use editor_sync::write_resource::{WriteResourceSystem, apply_updates, select_update};

fn reassemble(datagrams: &Vec<Vec<u8>>) -> String {
    let mut bytes: Vec<u8> = Vec::new();
    for chunk in datagrams {
        bytes.extend_from_slice(chunk);
    }
    String::from_utf8(bytes).expect("snapshot text is valid UTF-8")
}

#[test]
fn one_singleton_and_no_entities() {
    let bundle = SyncEditorBundle::new().sync_resource("Foo");
    let (_components, resources, sync) = bundle.build();
    assert_eq!(resources.len(), 1);

    let value = "{\"x\":1}".to_string();
    let outcome = resources[0].run(Some(&value));
    assert!(outcome.is_ok());

    let entities: Vec<SerializableEntity> = Vec::new();
    let datagrams = sync.run(&entities);
    let text = reassemble(&datagrams);
    assert_eq!(
        text,
        "{\"type\":\"message\",\"data\":{\"entities\":[],\"components\":[],\"resources\":[{\"name\":\"Foo\",\"data\":{\"x\":1}}],\"messages\":[]}}\u{c}"
    );
}

#[test]
fn absent_singleton_yields_diagnostic_until_present() {
    let bundle = SyncEditorBundle::new().sync_resource("Foo");
    let (_components, resources, sync) = bundle.build();

    let outcome = resources[0].run(None);
    assert_eq!(
        outcome,
        Err("Resource named Foo wasn't registered and will not show up in the editor".to_string())
    );
    let entities: Vec<SerializableEntity> = Vec::new();
    let text = reassemble(&sync.run(&entities));
    assert!(text.contains("\"resources\":[]"));

    let value = "{\"x\":1}".to_string();
    let outcome = resources[0].run(Some(&value));
    assert_eq!(outcome, Ok("{\"name\":\"Foo\",\"data\":{\"x\":1}}".to_string()));
    let text = reassemble(&sync.run(&entities));
    assert!(text.contains("\"resources\":[{\"name\":\"Foo\",\"data\":{\"x\":1}}]"));
}

#[test]
fn five_hundred_entities_round_trip() {
    let bundle = SyncEditorBundle::new().sync_component("Position");
    let (components, _resources, sync) = bundle.build();
    assert_eq!(components.len(), 1);

    let mut records: Vec<(u32, String)> = Vec::new();
    let mut entities: Vec<SerializableEntity> = Vec::new();
    for i in 0..500u32 {
        records.push((i, format!("{{\"x\":{}}}", i)));
        entities.push(SerializableEntity { id: i, generation: 1 });
    }
    let fragment = components[0].run(&records);

    // The fragment decodes back to exactly the records that were read.
    let decoded: serde_json::Value = serde_json::from_str(&fragment).expect("valid JSON");
    assert_eq!(decoded["name"], serde_json::Value::String("Position".to_string()));
    let data = decoded["data"].as_object().expect("keyed map");
    assert_eq!(data.len(), 500);
    for i in 0..500u32 {
        let entry = &data[&i.to_string()];
        assert_eq!(entry["x"].as_u64(), Some(i as u64));
    }

    // The envelope's entity list holds exactly the live identifiers.
    let text = reassemble(&sync.run(&entities));
    let body: serde_json::Value =
        serde_json::from_str(text.trim_end_matches('\u{c}')).expect("valid JSON");
    let listed = body["data"]["entities"].as_array().expect("entity array");
    assert_eq!(listed.len(), 500);
    for i in 0..500usize {
        assert_eq!(listed[i]["id"].as_u64(), Some(i as u64));
        assert_eq!(listed[i]["generation"].as_i64(), Some(1));
    }
}

#[test]
fn ten_thousand_entities_stay_consistent() {
    let sync = SyncEditorSystem::new();
    let mut entities: Vec<SerializableEntity> = Vec::new();
    for i in 0..10000u32 {
        entities.push(SerializableEntity { id: i, generation: (i % 7) as i32 + 1 });
    }
    let text = reassemble(&sync.run(&entities));
    let body: serde_json::Value =
        serde_json::from_str(text.trim_end_matches('\u{c}')).expect("valid JSON");
    let listed = body["data"]["entities"].as_array().expect("entity array");
    assert_eq!(listed.len(), 10000);
    assert_eq!(listed[9999]["id"].as_u64(), Some(9999));
}

#[test]
fn oversized_snapshot_splits_into_full_datagrams() {
    let sync = SyncEditorSystem::new();
    let connection = sync.get_connection();
    let payload = format!("{{\"x\":\"{}\"}}", "a".repeat(2 * MAX_PACKET_SIZE));
    connection.send_message("big", &payload);

    let entities: Vec<SerializableEntity> = Vec::new();
    let datagrams = sync.run(&entities);
    assert!(datagrams.len() >= 3);
    for chunk in datagrams.iter().take(datagrams.len() - 1) {
        assert_eq!(chunk.len(), MAX_PACKET_SIZE);
    }
    assert!(datagrams[datagrams.len() - 1].len() <= MAX_PACKET_SIZE);
    assert!(!datagrams[datagrams.len() - 1].is_empty());

    // Concatenated in send order, the datagrams reconstruct the full text
    // with exactly one trailing terminator.
    let text = reassemble(&datagrams);
    assert_eq!(text.matches('\u{c}').count(), 1);
    assert!(text.ends_with('\u{c}'));
    assert!(text.contains(&payload));
}

#[test]
fn messages_from_a_connection_reach_the_envelope() {
    let sync = SyncEditorSystem::new();
    let connection = sync.get_connection();
    let sent = connection.send_message("custom", "{\"k\":5}");
    assert_eq!(sent, "{\"type\":\"custom\",\"data\":{\"k\":5}}");

    let entities: Vec<SerializableEntity> = Vec::new();
    let text = reassemble(&sync.run(&entities));
    assert!(text.contains("\"messages\":[{\"type\":\"custom\",\"data\":{\"k\":5}}]"));
}

#[test]
fn last_successful_update_wins() {
    assert_eq!(select_update(&mut vec![Some(1u64), None, Some(2), None]), Some(2));
    assert_eq!(select_update(&mut Vec::<Option<u64>>::new()), None);
    assert_eq!(select_update(&mut vec![None::<u64>, None]), None);

    // Malformed payloads interspersed with good ones: only the last good one
    // is retained.
    let payloads = vec![
        serde_json::Value::String("bad".to_string()),
        serde_json::Value::from(1u64),
        serde_json::Value::String("also bad".to_string()),
        serde_json::Value::from(2u64),
        serde_json::Value::String("worse".to_string()),
    ];
    let mut updates: Vec<Option<u64>> = payloads
        .into_iter()
        .map(|v| serde_json::from_value::<u64>(v).ok())
        .collect();
    let mut resource: Option<u64> = Some(0);
    apply_updates(&mut resource, &mut updates);
    assert_eq!(resource, Some(2));

    // No successful decode leaves the singleton as it was.
    let mut resource: Option<u64> = Some(7);
    apply_updates(&mut resource, &mut vec![None, None]);
    assert_eq!(resource, Some(7));
}

#[test]
fn one_failed_record_suppresses_the_whole_fragment() {
    let all_good: Vec<(u32, Option<String>)> = vec![
        (0, Some("{\"x\":1}".to_string())),
        (3, Some("{\"x\":2}".to_string())),
    ];
    assert_eq!(
        gather_records(&all_good),
        Some(vec![(0, "{\"x\":1}".to_string()), (3, "{\"x\":2}".to_string())])
    );

    let one_bad: Vec<(u32, Option<String>)> = vec![
        (0, Some("{\"x\":1}".to_string())),
        (3, None),
        (5, Some("{\"x\":3}".to_string())),
    ];
    assert_eq!(gather_records(&one_bad), None);

    let none_at_all: Vec<(u32, Option<String>)> = Vec::new();
    assert_eq!(gather_records(&none_at_all), Some(Vec::new()));
}

#[test]
fn a_bundle_connection_feeds_the_built_aggregator() {
    let bundle = SyncEditorBundle::new();
    let connection = bundle.get_connection();
    let (_components, _resources, sync) = bundle.build();
    connection.send_message("ping", "{\"n\":1}");

    let entities: Vec<SerializableEntity> = Vec::new();
    let text = reassemble(&sync.run(&entities));
    assert!(text.contains("\"messages\":[{\"type\":\"ping\",\"data\":{\"n\":1}}]"));
}

#[test]
fn absent_singleton_leaves_updates_queued() {
    let (sender, receiver) = crossbeam_channel::unbounded();
    let system = WriteResourceSystem::new(receiver);
    sender.send(serde_json::Value::from(5u64)).expect("send");

    // Absent: nothing is consumed.
    let absent: Option<u64> = None;
    assert_eq!(system.drain_pending(&absent).len(), 0);

    // Present on a later tick: the queued payload is still there.
    let present: Option<u64> = Some(0);
    let payloads = system.drain_pending(&present);
    assert_eq!(payloads.len(), 1);
    assert_eq!(payloads[0].as_u64(), Some(5));
}
