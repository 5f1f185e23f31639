use statuspage_client::fetch::{finish_fetch, prepare_fetch};
use statuspage_client::json::{Json, Member};
use statuspage_client::models::CustomError;
use statuspage_client::transport::{build_client, profile_for, Profile};

fn m(key: &str, value: Json) -> Member {
    Member { key: String::from(key), value }
}

fn text(s: &str) -> Json {
    Json::Text(String::from(s))
}

#[test]
fn prepare_resolves_hosted_urls() {
    let page = String::from("apple");
    assert_eq!(
        prepare_fetch(&page, "summary", false).unwrap(),
        "https://apple.statuspage.io/api/v2/summary.json"
    );
    assert_eq!(
        prepare_fetch(&page, "components", false).unwrap(),
        "https://apple.statuspage.io/api/v2/components.json"
    );
    assert_eq!(
        prepare_fetch(&page, "unresolved_incidents", false).unwrap(),
        "https://apple.statuspage.io/api/v2/incidents/unresolved.json"
    );
    assert_eq!(
        prepare_fetch(&page, "status", false).unwrap(),
        "https://apple.statuspage.io/api/v2/status.json"
    );
}

#[test]
fn prepare_resolves_custom_domain_urls() {
    let page = String::from("status.example.com");
    assert_eq!(
        prepare_fetch(&page, "all_incidents", true).unwrap(),
        "https://status.example.com/api/v2/incidents.json"
    );
}

#[test]
fn prepare_rejects_unknown_action_before_any_request() {
    // The coordinator refuses the token at resolution time: no URL exists,
    // so no client is built and no request can be issued.
    match prepare_fetch(&String::from("apple"), "bogus", false) {
        Err(CustomError::InvalidAction(name)) => assert_eq!(name, "bogus"),
        other => panic!("expected InvalidAction, got {:?}", other),
    }
}

#[test]
fn finish_surfaces_transport_failures_verbatim() {
    let outcome: Result<Json, String> = Err(String::from(
        "HTTP status server error (500 Internal Server Error)",
    ));
    match finish_fetch(outcome) {
        Err(CustomError::Transport(cause)) => {
            assert_eq!(cause, "HTTP status server error (500 Internal Server Error)");
        },
        other => panic!("expected Transport, got {:?}", other),
    }
}

#[test]
fn finish_decodes_a_fetched_document() {
    let doc = Json::Object(vec![m(
        "page",
        Json::Object(vec![
            m("id", text("x")),
            m("name", text("x")),
            m("url", text("x")),
            m("time_zone", text("UTC")),
            m("updated_at", text("t")),
        ]),
    )]);
    let r = finish_fetch(Ok(doc)).expect("well-formed document must decode");
    assert_eq!(r.page.id, "x");
    assert!(r.status.is_none());
}

#[test]
fn finish_reports_undecodable_bodies_as_transport_errors() {
    let r = finish_fetch(Ok(Json::Text(String::from("<html>oops</html>"))));
    match r {
        Err(e) => assert_eq!(e.message(), "Request failed: error decoding response body"),
        Ok(_) => panic!("a non-object body must not decode"),
    }
}

#[test]
fn profile_selection_follows_the_environment_value() {
    assert_eq!(profile_for(&None), Profile::Production);
    assert_eq!(profile_for(&Some(String::from("development"))), Profile::Development);
    assert_eq!(profile_for(&Some(String::from("production"))), Profile::Production);
    assert_eq!(profile_for(&Some(String::from("Development"))), Profile::Production);
    assert_eq!(profile_for(&Some(String::from(""))), Profile::Production);
}

#[test]
fn clients_build_under_both_profiles() {
    assert!(build_client(&Profile::Production).is_ok());
    assert!(build_client(&Profile::Development).is_ok());
}
