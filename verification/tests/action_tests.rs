use statuspage_client::models::{ApiAction, CustomError};

#[test]
fn parses_every_canonical_token() {
    assert!(matches!(ApiAction::from_str("summary"), Ok(ApiAction::Summary)));
    assert!(matches!(ApiAction::from_str("status"), Ok(ApiAction::Status)));
    assert!(matches!(ApiAction::from_str("components"), Ok(ApiAction::Components)));
    assert!(matches!(
        ApiAction::from_str("unresolved_incidents"),
        Ok(ApiAction::UnresolvedIncidents)
    ));
    assert!(matches!(ApiAction::from_str("all_incidents"), Ok(ApiAction::AllIncidents)));
    assert!(matches!(
        ApiAction::from_str("upcoming_maintenances"),
        Ok(ApiAction::UpcomingMaintenances)
    ));
    assert!(matches!(
        ApiAction::from_str("active_maintenances"),
        Ok(ApiAction::ActiveMaintenances)
    ));
    assert!(matches!(ApiAction::from_str("all_maintenances"), Ok(ApiAction::AllMaintenances)));
}

#[test]
fn rejects_unknown_tokens_verbatim() {
    match ApiAction::from_str("bogus") {
        Err(CustomError::InvalidAction(name)) => assert_eq!(name, "bogus"),
        other => panic!("expected InvalidAction, got {:?}", other),
    }
    assert!(matches!(ApiAction::from_str(""), Err(CustomError::InvalidAction(_))));
    // Matching is case-sensitive.
    assert!(matches!(ApiAction::from_str("Summary"), Err(CustomError::InvalidAction(_))));
    assert!(matches!(ApiAction::from_str("summary "), Err(CustomError::InvalidAction(_))));
}

#[test]
fn hosted_urls_for_every_action() {
    let domain = String::from("demo");
    let cases: Vec<(ApiAction, &str)> = vec![
        (ApiAction::Summary, "https://demo.statuspage.io/api/v2/summary.json"),
        (ApiAction::Status, "https://demo.statuspage.io/api/v2/status.json"),
        (ApiAction::Components, "https://demo.statuspage.io/api/v2/components.json"),
        (
            ApiAction::UnresolvedIncidents,
            "https://demo.statuspage.io/api/v2/incidents/unresolved.json",
        ),
        (ApiAction::AllIncidents, "https://demo.statuspage.io/api/v2/incidents.json"),
        (
            ApiAction::UpcomingMaintenances,
            "https://demo.statuspage.io/api/v2/scheduled-maintenances/upcoming.json",
        ),
        (
            ApiAction::ActiveMaintenances,
            "https://demo.statuspage.io/api/v2/scheduled-maintenances/active.json",
        ),
        (
            ApiAction::AllMaintenances,
            "https://demo.statuspage.io/api/v2/scheduled-maintenances.json",
        ),
    ];
    for (action, expected) in cases {
        assert_eq!(action.to_url(&domain, false), expected);
    }
}

#[test]
fn custom_domain_urls_for_every_action() {
    let domain = String::from("status.example.com");
    let cases: Vec<(ApiAction, &str)> = vec![
        (ApiAction::Summary, "https://status.example.com/api/v2/summary.json"),
        (ApiAction::Status, "https://status.example.com/api/v2/status.json"),
        (ApiAction::Components, "https://status.example.com/api/v2/components.json"),
        (
            ApiAction::UnresolvedIncidents,
            "https://status.example.com/api/v2/incidents/unresolved.json",
        ),
        (ApiAction::AllIncidents, "https://status.example.com/api/v2/incidents.json"),
        (
            ApiAction::UpcomingMaintenances,
            "https://status.example.com/api/v2/scheduled-maintenances/upcoming.json",
        ),
        (
            ApiAction::ActiveMaintenances,
            "https://status.example.com/api/v2/scheduled-maintenances/active.json",
        ),
        (
            ApiAction::AllMaintenances,
            "https://status.example.com/api/v2/scheduled-maintenances.json",
        ),
    ];
    for (action, expected) in cases {
        assert_eq!(action.to_url(&domain, true), expected);
    }
}

#[test]
fn token_round_trip() {
    let tokens = vec![
        "summary",
        "status",
        "components",
        "unresolved_incidents",
        "all_incidents",
        "upcoming_maintenances",
        "active_maintenances",
        "all_maintenances",
    ];
    for token in tokens {
        let action = ApiAction::from_str(token).expect("canonical token must parse");
        // Parsing is a left inverse of the token table: the URL built from
        // the parsed action names the token's own endpoint.
        let url = action.to_url(&String::from("demo"), false);
        let a2 = ApiAction::from_str(token).expect("canonical token must parse");
        assert_eq!(action, a2);
        assert!(url.starts_with("https://demo.statuspage.io/api/v2/"));
    }
}

#[test]
fn error_messages() {
    let e = CustomError::InvalidAction(String::from("bogus"));
    assert_eq!(e.message(), "Invalid action: bogus");
    let t = CustomError::Transport(String::from("connection refused"));
    assert_eq!(t.message(), "Request failed: connection refused");
}
