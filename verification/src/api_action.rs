//! The action resolver: parsing an action token and forming the absolute
//! request URL against a hosted or a custom domain.

use vstd::prelude::*;

use crate::models::{ApiAction, CustomError};
use crate::text::str_eq;

verus! {

use vstd::string::StringExecFns;

broadcast use vstd::string::group_string_axioms;

/// The canonical token of an action.
pub open spec fn token_of(a: ApiAction) -> Seq<char> {
    match a {
        ApiAction::Summary => "summary"@,
        ApiAction::Status => "status"@,
        ApiAction::Components => "components"@,
        ApiAction::UnresolvedIncidents => "unresolved_incidents"@,
        ApiAction::AllIncidents => "all_incidents"@,
        ApiAction::UpcomingMaintenances => "upcoming_maintenances"@,
        ApiAction::ActiveMaintenances => "active_maintenances"@,
        ApiAction::AllMaintenances => "all_maintenances"@,
    }
}

/// The URL path fragment of an action.
pub open spec fn path_of(a: ApiAction) -> Seq<char> {
    match a {
        ApiAction::Summary => "/api/v2/summary.json"@,
        ApiAction::Status => "/api/v2/status.json"@,
        ApiAction::Components => "/api/v2/components.json"@,
        ApiAction::UnresolvedIncidents => "/api/v2/incidents/unresolved.json"@,
        ApiAction::AllIncidents => "/api/v2/incidents.json"@,
        ApiAction::UpcomingMaintenances => "/api/v2/scheduled-maintenances/upcoming.json"@,
        ApiAction::ActiveMaintenances => "/api/v2/scheduled-maintenances/active.json"@,
        ApiAction::AllMaintenances => "/api/v2/scheduled-maintenances.json"@,
    }
}

/// What a textual action token denotes: `Some` exactly on the eight
/// canonical tokens, matched case-sensitively.
pub open spec fn parse_action(s: Seq<char>) -> Option<ApiAction> {
    if s == "summary"@ {
        Some(ApiAction::Summary)
    } else if s == "status"@ {
        Some(ApiAction::Status)
    } else if s == "components"@ {
        Some(ApiAction::Components)
    } else if s == "unresolved_incidents"@ {
        Some(ApiAction::UnresolvedIncidents)
    } else if s == "all_incidents"@ {
        Some(ApiAction::AllIncidents)
    } else if s == "upcoming_maintenances"@ {
        Some(ApiAction::UpcomingMaintenances)
    } else if s == "active_maintenances"@ {
        Some(ApiAction::ActiveMaintenances)
    } else if s == "all_maintenances"@ {
        Some(ApiAction::AllMaintenances)
    } else {
        None
    }
}

/// The host an endpoint lives on: the page identifier itself for a custom
/// domain, else the page identifier as a subdomain of `statuspage.io`.
pub open spec fn host_of(domain: Seq<char>, is_custom_domain: bool) -> Seq<char> {
    if is_custom_domain {
        domain
    } else {
        domain + ".statuspage.io"@
    }
}

/// The absolute request URL of an action against a host.
pub open spec fn url_of(a: ApiAction, domain: Seq<char>, is_custom_domain: bool) -> Seq<char> {
    "https://"@ + host_of(domain, is_custom_domain) + path_of(a)
}

impl ApiAction {
    /// Parses an action token; unknown tokens are rejected with
    /// `InvalidAction` carrying the token unchanged.
    pub fn from_str(action: &str) -> (r: Result<ApiAction, CustomError>)
        ensures
            r is Ok <==> parse_action(action@) is Some,
            (r matches Ok(a) ==> parse_action(action@) == Some(a)),
            (r matches Err(e) ==> (e matches CustomError::InvalidAction(name) && name@
                == action@)),
    {
        if str_eq(action, "summary") {
            Ok(ApiAction::Summary)
        } else if str_eq(action, "status") {
            Ok(ApiAction::Status)
        } else if str_eq(action, "components") {
            Ok(ApiAction::Components)
        } else if str_eq(action, "unresolved_incidents") {
            Ok(ApiAction::UnresolvedIncidents)
        } else if str_eq(action, "all_incidents") {
            Ok(ApiAction::AllIncidents)
        } else if str_eq(action, "upcoming_maintenances") {
            Ok(ApiAction::UpcomingMaintenances)
        } else if str_eq(action, "active_maintenances") {
            Ok(ApiAction::ActiveMaintenances)
        } else if str_eq(action, "all_maintenances") {
            Ok(ApiAction::AllMaintenances)
        } else {
            Err(CustomError::InvalidAction(String::from_str(action)))
        }
    }

    /// Forms the absolute URL of this action against the given page
    /// identifier, treated as a full host when `is_custom_domain` is set.
    pub fn to_url(&self, domain: &String, is_custom_domain: bool) -> (r: String)
        ensures
            r@ == url_of(*self, domain@, is_custom_domain),
    {
        let mut url = String::from_str("https://");
        url.append(domain.as_str());
        if !is_custom_domain {
            url.append(".statuspage.io");
        }
        let path: &str = match self {
            ApiAction::Summary => "/api/v2/summary.json",
            ApiAction::Status => "/api/v2/status.json",
            ApiAction::Components => "/api/v2/components.json",
            ApiAction::UnresolvedIncidents => "/api/v2/incidents/unresolved.json",
            ApiAction::AllIncidents => "/api/v2/incidents.json",
            ApiAction::UpcomingMaintenances => "/api/v2/scheduled-maintenances/upcoming.json",
            ApiAction::ActiveMaintenances => "/api/v2/scheduled-maintenances/active.json",
            ApiAction::AllMaintenances => "/api/v2/scheduled-maintenances.json",
        };
        proof {
            assert(path@ == path_of(*self));
        }
        url.append(path);
        proof {
            assert(url@ =~= url_of(*self, domain@, is_custom_domain));
        }
        url
    }
}

/// Law: parsing the canonical token of any action yields that action back,
/// so the token-to-action mapping round-trips on every variant.
pub proof fn lemma_parse_round_trip(a: ApiAction)
    ensures
        parse_action(token_of(a)) == Some(a),
{
    reveal_strlit("summary");
    reveal_strlit("status");
    reveal_strlit("components");
    reveal_strlit("unresolved_incidents");
    reveal_strlit("all_incidents");
    reveal_strlit("upcoming_maintenances");
    reveal_strlit("active_maintenances");
    reveal_strlit("all_maintenances");
    assert("summary"@.len() == 7);
    assert("status"@.len() == 6);
    assert("components"@.len() == 10);
    assert("unresolved_incidents"@.len() == 20);
    assert("all_incidents"@.len() == 13);
    assert("upcoming_maintenances"@.len() == 21);
    assert("active_maintenances"@.len() == 19);
    assert("all_maintenances"@.len() == 16);
    match a {
        ApiAction::Summary => assert(parse_action(token_of(a)) == Some(a)),
        ApiAction::Status => assert(parse_action(token_of(a)) == Some(a)),
        ApiAction::Components => assert(parse_action(token_of(a)) == Some(a)),
        ApiAction::UnresolvedIncidents => assert(parse_action(token_of(a)) == Some(a)),
        ApiAction::AllIncidents => assert(parse_action(token_of(a)) == Some(a)),
        ApiAction::UpcomingMaintenances => assert(parse_action(token_of(a)) == Some(a)),
        ApiAction::ActiveMaintenances => assert(parse_action(token_of(a)) == Some(a)),
        ApiAction::AllMaintenances => assert(parse_action(token_of(a)) == Some(a)),
    }
}

/// Law: distinct actions carry distinct canonical tokens.
pub proof fn lemma_token_distinct(a: ApiAction, b: ApiAction)
    requires
        a != b,
    ensures
        token_of(a) != token_of(b),
{
    lemma_parse_round_trip(a);
    lemma_parse_round_trip(b);
    assert(parse_action(token_of(a)) == Some(a));
    assert(parse_action(token_of(b)) == Some(b));
}

/// Law: against a hosted page identifier, the URL of every action is the
/// scheme, the identifier, the `statuspage.io` suffix, and the action's
/// path fragment, in that order.
pub proof fn lemma_hosted_url(a: ApiAction, domain: Seq<char>)
    ensures
        url_of(a, domain, false) == "https://"@ + domain + ".statuspage.io"@ + path_of(a),
{
    assert(url_of(a, domain, false) =~= "https://"@ + domain + ".statuspage.io"@ + path_of(a));
}

/// Law: against a custom domain, the URL of every action is the scheme,
/// the domain as given, and the action's path fragment, in that order.
pub proof fn lemma_custom_url(a: ApiAction, domain: Seq<char>)
    ensures
        url_of(a, domain, true) == "https://"@ + domain + path_of(a),
{
}

} // verus!
