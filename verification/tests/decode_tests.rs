use statuspage_client::decode::{decode_component, decode_page, decode_response, decode_status};
use statuspage_client::json::{Json, Member};
use statuspage_client::models::CustomError;

fn m(key: &str, value: Json) -> Member {
    Member { key: String::from(key), value }
}

fn text(s: &str) -> Json {
    Json::Text(String::from(s))
}

fn minimal_page() -> Json {
    Json::Object(vec![
        m("id", text("x")),
        m("name", text("x")),
        m("url", text("x")),
        m("time_zone", text("UTC")),
        m("updated_at", text("t")),
    ])
}

fn component(id: &str, position: i64) -> Json {
    Json::Object(vec![
        m("id", text(id)),
        m("name", text("db")),
        m("status", text("operational")),
        m("created_at", text("c")),
        m("updated_at", text("u")),
        m("position", Json::Int(position)),
        m("description", Json::Null),
        m("showcase", Json::Bool(true)),
        m("start_date", Json::Null),
        m("group_id", Json::Null),
        m("page_id", text("x")),
        m("group", Json::Bool(false)),
        m("only_show_if_degraded", Json::Bool(false)),
    ])
}

fn update(id: &str) -> Json {
    Json::Object(vec![
        m("body", text("investigating")),
        m("created_at", text("c")),
        m("display_at", text("d")),
        m("id", text(id)),
        m("incident_id", text("i1")),
        m("status", text("investigating")),
        m("updated_at", text("u")),
    ])
}

fn incident(id: &str, updates: Vec<Json>) -> Json {
    Json::Object(vec![
        m("created_at", text("c")),
        m("id", text(id)),
        m("impact", text("major")),
        m("incident_updates", Json::Array(updates)),
        m("monitoring_at", Json::Null),
        m("name", text("outage")),
        m("page_id", text("x")),
        m("resolved_at", Json::Null),
        m("shortlink", text("http://stspg.io/a")),
        m("status", text("investigating")),
        m("updated_at", text("u")),
    ])
}

fn maintenance(id: &str, updates: Vec<Json>) -> Json {
    Json::Object(vec![
        m("created_at", text("c")),
        m("id", text(id)),
        m("impact", text("maintenance")),
        m("incident_updates", Json::Array(updates)),
        m("monitoring_at", Json::Null),
        m("name", text("upgrade")),
        m("page_id", text("x")),
        m("resolved_at", Json::Null),
        m("scheduled_for", text("sf")),
        m("scheduled_until", text("su")),
        m("shortlink", text("http://stspg.io/b")),
        m("status", text("scheduled")),
        m("updated_at", text("u")),
    ])
}

#[test]
fn minimal_document_decodes_to_page_only() {
    let doc = Json::Object(vec![m("page", minimal_page())]);
    let r = decode_response(&doc).expect("minimal document must decode");
    assert_eq!(r.page.id, "x");
    assert_eq!(r.page.name, "x");
    assert_eq!(r.page.url, "x");
    assert_eq!(r.page.time_zone, "UTC");
    assert_eq!(r.page.updated_at, "t");
    assert!(r.components.is_none());
    assert!(r.incidents.is_none());
    assert!(r.scheduled_maintenances.is_none());
    assert!(r.status.is_none());
}

#[test]
fn unknown_top_level_members_are_ignored() {
    let doc = Json::Object(vec![
        m("schema_version", Json::Int(2)),
        m("page", minimal_page()),
        m("extra", Json::Array(vec![Json::Bool(true), Json::OtherNum])),
        m("another", Json::Object(vec![m("nested", Json::Null)])),
    ]);
    let r = decode_response(&doc).expect("extra members must be tolerated");
    assert_eq!(r.page.id, "x");
    assert!(r.components.is_none());
}

#[test]
fn null_collections_decode_as_absent() {
    let doc = Json::Object(vec![
        m("page", minimal_page()),
        m("components", Json::Null),
        m("incidents", Json::Null),
        m("scheduled_maintenances", Json::Null),
        m("status", Json::Null),
    ]);
    let r = decode_response(&doc).expect("null collections must be tolerated");
    assert!(r.components.is_none());
    assert!(r.incidents.is_none());
    assert!(r.scheduled_maintenances.is_none());
    assert!(r.status.is_none());
}

#[test]
fn two_components_preserve_order_and_position() {
    let doc = Json::Object(vec![
        m("page", minimal_page()),
        m("components", Json::Array(vec![component("c1", 1), component("c2", 2)])),
    ]);
    let r = decode_response(&doc).expect("components document must decode");
    let cs = r.components.expect("components must be present");
    assert_eq!(cs.len(), 2);
    assert_eq!(cs[0].id, "c1");
    assert_eq!(cs[0].position, 1);
    assert_eq!(cs[1].id, "c2");
    assert_eq!(cs[1].position, 2);
}

#[test]
fn incident_preserves_update_order() {
    let doc = Json::Object(vec![
        m("page", minimal_page()),
        m("incidents", Json::Array(vec![incident("i1", vec![update("u1"), update("u2")])])),
    ]);
    let r = decode_response(&doc).expect("incidents document must decode");
    let xs = r.incidents.expect("incidents must be present");
    assert_eq!(xs.len(), 1);
    assert_eq!(xs[0].id, "i1");
    assert_eq!(xs[0].incident_updates.len(), 2);
    assert_eq!(xs[0].incident_updates[0].id, "u1");
    assert_eq!(xs[0].incident_updates[1].id, "u2");
}

#[test]
fn maintenance_carries_schedule() {
    let doc = Json::Object(vec![
        m("page", minimal_page()),
        m("scheduled_maintenances", Json::Array(vec![maintenance("m1", vec![update("u1")])])),
    ]);
    let r = decode_response(&doc).expect("maintenances document must decode");
    let xs = r.scheduled_maintenances.expect("maintenances must be present");
    assert_eq!(xs.len(), 1);
    assert_eq!(xs[0].scheduled_for, "sf");
    assert_eq!(xs[0].scheduled_until, "su");
    assert_eq!(xs[0].incident_updates.len(), 1);
}

#[test]
fn status_member_decodes() {
    let doc = Json::Object(vec![
        m("page", minimal_page()),
        m(
            "status",
            Json::Object(vec![m("indicator", text("none")), m("description", Json::Null)]),
        ),
    ]);
    let r = decode_response(&doc).expect("status document must decode");
    let st = r.status.expect("status must be present");
    assert_eq!(st.indicator, "none");
    assert!(st.description.is_none());
}

#[test]
fn missing_page_is_a_decode_failure() {
    let doc = Json::Object(vec![m("components", Json::Array(vec![]))]);
    match decode_response(&doc) {
        Err(e) => assert_eq!(e.message(), "Request failed: error decoding response body"),
        Ok(_) => panic!("a document without a page must not decode"),
    }
    assert!(matches!(
        decode_response(&Json::Array(vec![])),
        Err(CustomError::Transport(_))
    ));
}

#[test]
fn malformed_members_are_decode_failures() {
    // A page with a missing required member.
    let bad_page = Json::Object(vec![m("id", text("x"))]);
    assert!(decode_page(&bad_page).is_none());
    // A page member of the wrong kind.
    let bad_page2 = Json::Object(vec![
        m("id", Json::Int(1)),
        m("name", text("x")),
        m("url", text("x")),
        m("time_zone", text("UTC")),
        m("updated_at", text("t")),
    ]);
    assert!(decode_page(&bad_page2).is_none());
    // A component whose position is not an integer.
    let mut bad_component_members = vec![
        m("id", text("c")),
        m("name", text("db")),
        m("status", Json::Null),
        m("created_at", text("c")),
        m("updated_at", text("u")),
        m("position", Json::OtherNum),
        m("description", Json::Null),
        m("showcase", Json::Bool(true)),
        m("start_date", Json::Null),
        m("group_id", Json::Null),
        m("page_id", text("x")),
        m("group", Json::Bool(false)),
        m("only_show_if_degraded", Json::Bool(false)),
    ];
    assert!(decode_component(&Json::Object(bad_component_members.split_off(0))).is_none());
    // A component whose position does not fit a 32-bit value.
    assert!(decode_component(&component("c", 1 << 40)).is_none());
    // A status indicator of the wrong kind.
    let bad_status = Json::Object(vec![m("indicator", Json::Bool(true))]);
    assert!(decode_status(&bad_status).is_none());
    // A collection member that is neither absent, null, nor an array.
    let doc = Json::Object(vec![m("page", minimal_page()), m("components", Json::Int(3))]);
    assert!(decode_response(&doc).is_err());
    // One malformed element fails the whole collection.
    let doc2 = Json::Object(vec![
        m("page", minimal_page()),
        m("components", Json::Array(vec![component("c1", 1), Json::Null])),
    ]);
    assert!(decode_response(&doc2).is_err());
}

#[test]
fn first_occurrence_of_a_key_wins() {
    let page = Json::Object(vec![
        m("id", text("first")),
        m("id", text("second")),
        m("name", text("x")),
        m("url", text("x")),
        m("time_zone", text("UTC")),
        m("updated_at", text("t")),
    ]);
    let p = decode_page(&page).expect("page must decode");
    assert_eq!(p.id, "first");
}
