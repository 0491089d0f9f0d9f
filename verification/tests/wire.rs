//! Exact wire-text checks for the fragment and envelope builders.

use editor_sync::SerializableEntity;
use editor_sync::envelope::{
    build_envelope, component_fragment, message_fragment, resource_fragment,
};

#[test]
fn empty_component_fragment_is_an_empty_map() {
    let records: Vec<(u32, String)> = Vec::new();
    let fragment = component_fragment("Foo", &records);
    assert_eq!(fragment, "{\"name\":\"Foo\",\"data\":{}}");
}

#[test]
fn component_fragment_keys_records_by_entity_index() {
    let records: Vec<(u32, String)> = vec![
        (0, "{\"x\":1}".to_string()),
        (7, "{\"x\":2}".to_string()),
        (4294967295, "{\"x\":3}".to_string()),
    ];
    let fragment = component_fragment("Position", &records);
    assert_eq!(
        fragment,
        "{\"name\":\"Position\",\"data\":{\"0\":{\"x\":1},\"7\":{\"x\":2},\"4294967295\":{\"x\":3}}}"
    );
}

#[test]
fn resource_fragment_splices_data_verbatim() {
    let fragment = resource_fragment("AmbientColor", "[0.1,0.2,0.3,1.0]");
    assert_eq!(fragment, "{\"name\":\"AmbientColor\",\"data\":[0.1,0.2,0.3,1.0]}");
}

#[test]
fn message_fragment_wraps_tag_and_payload() {
    let fragment = message_fragment("custom", "{\"k\":5}");
    assert_eq!(fragment, "{\"type\":\"custom\",\"data\":{\"k\":5}}");
}

#[test]
fn names_are_json_escaped() {
    let records: Vec<(u32, String)> = Vec::new();
    let fragment = component_fragment("a\"b\\c\nd", &records);
    assert_eq!(fragment, "{\"name\":\"a\\\"b\\\\c\\u000ad\",\"data\":{}}");
}

#[test]
fn envelope_holds_entities_and_categories_in_order() {
    let entities = vec![
        SerializableEntity { id: 0, generation: 1 },
        SerializableEntity { id: 5, generation: -3 },
    ];
    let components = vec!["{\"name\":\"A\",\"data\":{}}".to_string()];
    let resources: Vec<String> = Vec::new();
    let messages = vec!["m1".to_string(), "m2".to_string()];
    let envelope = build_envelope(&entities, &components, &resources, &messages);
    assert_eq!(
        envelope,
        "{\"type\":\"message\",\"data\":{\"entities\":[{\"id\":0,\"generation\":1},{\"id\":5,\"generation\":-3}],\"components\":[{\"name\":\"A\",\"data\":{}}],\"resources\":[],\"messages\":[m1,m2]}}"
    );
}

#[test]
fn extreme_entity_values_render_exactly() {
    let entities = vec![
        SerializableEntity { id: u32::MAX, generation: i32::MIN },
        SerializableEntity { id: 0, generation: i32::MAX },
    ];
    let none: Vec<String> = Vec::new();
    let envelope = build_envelope(&entities, &none, &none, &none);
    assert_eq!(
        envelope,
        "{\"type\":\"message\",\"data\":{\"entities\":[{\"id\":4294967295,\"generation\":-2147483648},{\"id\":0,\"generation\":2147483647}],\"components\":[],\"resources\":[],\"messages\":[]}}"
    );
}

#[test]
fn control_characters_escape_to_hex() {
    let records: Vec<(u32, String)> = Vec::new();
    let fragment = component_fragment("a\u{1f}b\u{0}c", &records);
    assert_eq!(fragment, "{\"name\":\"a\\u001fb\\u0000c\",\"data\":{}}");
}

#[test]
fn envelope_with_nothing_registered_is_empty_lists() {
    let entities: Vec<SerializableEntity> = Vec::new();
    let none: Vec<String> = Vec::new();
    let envelope = build_envelope(&entities, &none, &none, &none);
    assert_eq!(
        envelope,
        "{\"type\":\"message\",\"data\":{\"entities\":[],\"components\":[],\"resources\":[],\"messages\":[]}}"
    );
}
