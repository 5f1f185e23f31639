//! The decoder: from a JSON document to the typed response model.
//!
//! Decoding is tolerant in the way the upstream schema demands: members the
//! model does not name are ignored, and the action-specific collections may
//! be absent or null. Only the `page` object is required.

use vstd::prelude::*;

use crate::json::{
    bool_field, get_bool, get_i32, get_opt_string, get_string, i32_field, lookup, opt_str_field,
    spec_lookup, str_field, Json,
};
use crate::models::{
    ApiResponse, Component, CustomError, Incident, IncidentUpdate, Maintenance, MaintenanceUpdate,
    Page, Status,
};

verus! {

use vstd::string::StringExecFns;

/// The characters of an optional string.
pub open spec fn opt_view(o: Option<String>) -> Option<Seq<char>> {
    match o {
        Some(s) => Some(s@),
        None => None,
    }
}

/// A JSON value decodes as a `page` object.
pub open spec fn page_ok(j: Json) -> bool {
    match j {
        Json::Object(fs) => {
            &&& str_field(fs@, "id"@) is Some
            &&& str_field(fs@, "name"@) is Some
            &&& str_field(fs@, "url"@) is Some
            &&& str_field(fs@, "time_zone"@) is Some
            &&& str_field(fs@, "updated_at"@) is Some
        },
        _ => false,
    }
}

/// `p` is exactly what the JSON value decodes to as a `page` object.
pub open spec fn page_matches(p: Page, j: Json) -> bool {
    match j {
        Json::Object(fs) => {
            &&& str_field(fs@, "id"@) == Some(p.id@)
            &&& str_field(fs@, "name"@) == Some(p.name@)
            &&& str_field(fs@, "url"@) == Some(p.url@)
            &&& str_field(fs@, "time_zone"@) == Some(p.time_zone@)
            &&& str_field(fs@, "updated_at"@) == Some(p.updated_at@)
        },
        _ => false,
    }
}

/// Decodes the universal `page` object.
pub fn decode_page(j: &Json) -> (r: Option<Page>)
    ensures
        r is Some <==> page_ok(*j),
        (r matches Some(p) ==> page_matches(p, *j)),
{
    let fs = match j {
        Json::Object(fs) => fs,
        _ => {
            return None;
        },
    };
    let id = match get_string(fs, "id") {
        Some(s) => s,
        None => {
            return None;
        },
    };
    let name = match get_string(fs, "name") {
        Some(s) => s,
        None => {
            return None;
        },
    };
    let url = match get_string(fs, "url") {
        Some(s) => s,
        None => {
            return None;
        },
    };
    let time_zone = match get_string(fs, "time_zone") {
        Some(s) => s,
        None => {
            return None;
        },
    };
    let updated_at = match get_string(fs, "updated_at") {
        Some(s) => s,
        None => {
            return None;
        },
    };
    Some(Page { id, name, url, time_zone, updated_at })
}

/// A JSON value decodes as the overall status indicator.
pub open spec fn status_ok(j: Json) -> bool {
    match j {
        Json::Object(fs) => {
            &&& str_field(fs@, "indicator"@) is Some
            &&& opt_str_field(fs@, "description"@) is Some
        },
        _ => false,
    }
}

/// `st` is exactly what the JSON value decodes to as a status indicator.
pub open spec fn status_matches(st: Status, j: Json) -> bool {
    match j {
        Json::Object(fs) => {
            &&& str_field(fs@, "indicator"@) == Some(st.indicator@)
            &&& opt_str_field(fs@, "description"@) == Some(opt_view(st.description))
        },
        _ => false,
    }
}

/// Decodes the overall status indicator.
pub fn decode_status(j: &Json) -> (r: Option<Status>)
    ensures
        r is Some <==> status_ok(*j),
        (r matches Some(st) ==> status_matches(st, *j)),
{
    let fs = match j {
        Json::Object(fs) => fs,
        _ => {
            return None;
        },
    };
    let indicator = match get_string(fs, "indicator") {
        Some(s) => s,
        None => {
            return None;
        },
    };
    let description = match get_opt_string(fs, "description") {
        Some(o) => o,
        None => {
            return None;
        },
    };
    Some(Status { indicator, description })
}

/// A JSON value decodes as one update record. Incident updates and
/// maintenance updates share this shape.
pub open spec fn update_ok(j: Json) -> bool {
    match j {
        Json::Object(fs) => {
            &&& str_field(fs@, "body"@) is Some
            &&& str_field(fs@, "created_at"@) is Some
            &&& str_field(fs@, "display_at"@) is Some
            &&& str_field(fs@, "id"@) is Some
            &&& str_field(fs@, "incident_id"@) is Some
            &&& str_field(fs@, "status"@) is Some
            &&& str_field(fs@, "updated_at"@) is Some
        },
        _ => false,
    }
}

/// `u` is exactly what the JSON value decodes to as an incident update.
pub open spec fn update_matches(u: IncidentUpdate, j: Json) -> bool {
    match j {
        Json::Object(fs) => {
            &&& str_field(fs@, "body"@) == Some(u.body@)
            &&& str_field(fs@, "created_at"@) == Some(u.created_at@)
            &&& str_field(fs@, "display_at"@) == Some(u.display_at@)
            &&& str_field(fs@, "id"@) == Some(u.id@)
            &&& str_field(fs@, "incident_id"@) == Some(u.incident_id@)
            &&& str_field(fs@, "status"@) == Some(u.status@)
            &&& str_field(fs@, "updated_at"@) == Some(u.updated_at@)
        },
        _ => false,
    }
}

/// `u` is exactly what the JSON value decodes to as a maintenance update.
pub open spec fn mupdate_matches(u: MaintenanceUpdate, j: Json) -> bool {
    match j {
        Json::Object(fs) => {
            &&& str_field(fs@, "body"@) == Some(u.body@)
            &&& str_field(fs@, "created_at"@) == Some(u.created_at@)
            &&& str_field(fs@, "display_at"@) == Some(u.display_at@)
            &&& str_field(fs@, "id"@) == Some(u.id@)
            &&& str_field(fs@, "incident_id"@) == Some(u.incident_id@)
            &&& str_field(fs@, "status"@) == Some(u.status@)
            &&& str_field(fs@, "updated_at"@) == Some(u.updated_at@)
        },
        _ => false,
    }
}

/// Decodes one incident update.
pub fn decode_incident_update(j: &Json) -> (r: Option<IncidentUpdate>)
    ensures
        r is Some <==> update_ok(*j),
        (r matches Some(u) ==> update_matches(u, *j)),
{
    let fs = match j {
        Json::Object(fs) => fs,
        _ => {
            return None;
        },
    };
    let body = match get_string(fs, "body") {
        Some(s) => s,
        None => {
            return None;
        },
    };
    let created_at = match get_string(fs, "created_at") {
        Some(s) => s,
        None => {
            return None;
        },
    };
    let display_at = match get_string(fs, "display_at") {
        Some(s) => s,
        None => {
            return None;
        },
    };
    let id = match get_string(fs, "id") {
        Some(s) => s,
        None => {
            return None;
        },
    };
    let incident_id = match get_string(fs, "incident_id") {
        Some(s) => s,
        None => {
            return None;
        },
    };
    let status = match get_string(fs, "status") {
        Some(s) => s,
        None => {
            return None;
        },
    };
    let updated_at = match get_string(fs, "updated_at") {
        Some(s) => s,
        None => {
            return None;
        },
    };
    Some(IncidentUpdate { body, created_at, display_at, id, incident_id, status, updated_at })
}

/// Decodes one maintenance update.
pub fn decode_maintenance_update(j: &Json) -> (r: Option<MaintenanceUpdate>)
    ensures
        r is Some <==> update_ok(*j),
        (r matches Some(u) ==> mupdate_matches(u, *j)),
{
    let fs = match j {
        Json::Object(fs) => fs,
        _ => {
            return None;
        },
    };
    let body = match get_string(fs, "body") {
        Some(s) => s,
        None => {
            return None;
        },
    };
    let created_at = match get_string(fs, "created_at") {
        Some(s) => s,
        None => {
            return None;
        },
    };
    let display_at = match get_string(fs, "display_at") {
        Some(s) => s,
        None => {
            return None;
        },
    };
    let id = match get_string(fs, "id") {
        Some(s) => s,
        None => {
            return None;
        },
    };
    let incident_id = match get_string(fs, "incident_id") {
        Some(s) => s,
        None => {
            return None;
        },
    };
    let status = match get_string(fs, "status") {
        Some(s) => s,
        None => {
            return None;
        },
    };
    let updated_at = match get_string(fs, "updated_at") {
        Some(s) => s,
        None => {
            return None;
        },
    };
    Some(MaintenanceUpdate { body, created_at, display_at, id, incident_id, status, updated_at })
}

/// Decodes an ordered array of incident updates; order is preserved.
pub fn decode_incident_updates(v: &Vec<Json>) -> (r: Option<Vec<IncidentUpdate>>)
    ensures
        r is Some <==> (forall|i: int| 0 <= i < v@.len() ==> #[trigger] update_ok(v@[i])),
        (r matches Some(us) ==> us@.len() == v@.len() && (forall|i: int|
            0 <= i < v@.len() ==> #[trigger] update_matches(us@[i], v@[i]))),
{
    let mut out: Vec<IncidentUpdate> = Vec::new();
    let n = v.len();
    let mut i: usize = 0;
    while i < n
        invariant
            n == v@.len(),
            i <= n,
            out@.len() == i,
            forall|k: int| 0 <= k < i ==> #[trigger] update_ok(v@[k]),
            forall|k: int| 0 <= k < i ==> #[trigger] update_matches(out@[k], v@[k]),
        decreases n - i,
    {
        match decode_incident_update(&v[i]) {
            Some(u) => out.push(u),
            None => {
                proof {
                    assert(!update_ok(v@[i as int]));
                }
                return None;
            },
        }
        i += 1;
    }
    Some(out)
}

/// Decodes an ordered array of maintenance updates; order is preserved.
pub fn decode_maintenance_updates(v: &Vec<Json>) -> (r: Option<Vec<MaintenanceUpdate>>)
    ensures
        r is Some <==> (forall|i: int| 0 <= i < v@.len() ==> #[trigger] update_ok(v@[i])),
        (r matches Some(us) ==> us@.len() == v@.len() && (forall|i: int|
            0 <= i < v@.len() ==> #[trigger] mupdate_matches(us@[i], v@[i]))),
{
    let mut out: Vec<MaintenanceUpdate> = Vec::new();
    let n = v.len();
    let mut i: usize = 0;
    while i < n
        invariant
            n == v@.len(),
            i <= n,
            out@.len() == i,
            forall|k: int| 0 <= k < i ==> #[trigger] update_ok(v@[k]),
            forall|k: int| 0 <= k < i ==> #[trigger] mupdate_matches(out@[k], v@[k]),
        decreases n - i,
    {
        match decode_maintenance_update(&v[i]) {
            Some(u) => out.push(u),
            None => {
                proof {
                    assert(!update_ok(v@[i as int]));
                }
                return None;
            },
        }
        i += 1;
    }
    Some(out)
}

/// A JSON value decodes as one component.
pub open spec fn component_ok(j: Json) -> bool {
    match j {
        Json::Object(fs) => {
            &&& str_field(fs@, "id"@) is Some
            &&& str_field(fs@, "name"@) is Some
            &&& opt_str_field(fs@, "status"@) is Some
            &&& str_field(fs@, "created_at"@) is Some
            &&& str_field(fs@, "updated_at"@) is Some
            &&& i32_field(fs@, "position"@) is Some
            &&& opt_str_field(fs@, "description"@) is Some
            &&& bool_field(fs@, "showcase"@) is Some
            &&& opt_str_field(fs@, "start_date"@) is Some
            &&& opt_str_field(fs@, "group_id"@) is Some
            &&& str_field(fs@, "page_id"@) is Some
            &&& bool_field(fs@, "group"@) is Some
            &&& bool_field(fs@, "only_show_if_degraded"@) is Some
        },
        _ => false,
    }
}

/// `c` is exactly what the JSON value decodes to as a component.
pub open spec fn component_matches(c: Component, j: Json) -> bool {
    match j {
        Json::Object(fs) => {
            &&& str_field(fs@, "id"@) == Some(c.id@)
            &&& str_field(fs@, "name"@) == Some(c.name@)
            &&& opt_str_field(fs@, "status"@) == Some(opt_view(c.status))
            &&& str_field(fs@, "created_at"@) == Some(c.created_at@)
            &&& str_field(fs@, "updated_at"@) == Some(c.updated_at@)
            &&& i32_field(fs@, "position"@) == Some(c.position)
            &&& opt_str_field(fs@, "description"@) == Some(opt_view(c.description))
            &&& bool_field(fs@, "showcase"@) == Some(c.showcase)
            &&& opt_str_field(fs@, "start_date"@) == Some(opt_view(c.start_date))
            &&& opt_str_field(fs@, "group_id"@) == Some(opt_view(c.group_id))
            &&& str_field(fs@, "page_id"@) == Some(c.page_id@)
            &&& bool_field(fs@, "group"@) == Some(c.group)
            &&& bool_field(fs@, "only_show_if_degraded"@) == Some(c.only_show_if_degraded)
        },
        _ => false,
    }
}

/// Decodes one component.
pub fn decode_component(j: &Json) -> (r: Option<Component>)
    ensures
        r is Some <==> component_ok(*j),
        (r matches Some(c) ==> component_matches(c, *j)),
{
    let fs = match j {
        Json::Object(fs) => fs,
        _ => {
            return None;
        },
    };
    let id = match get_string(fs, "id") {
        Some(s) => s,
        None => {
            return None;
        },
    };
    let name = match get_string(fs, "name") {
        Some(s) => s,
        None => {
            return None;
        },
    };
    let status = match get_opt_string(fs, "status") {
        Some(o) => o,
        None => {
            return None;
        },
    };
    let created_at = match get_string(fs, "created_at") {
        Some(s) => s,
        None => {
            return None;
        },
    };
    let updated_at = match get_string(fs, "updated_at") {
        Some(s) => s,
        None => {
            return None;
        },
    };
    let position = match get_i32(fs, "position") {
        Some(n) => n,
        None => {
            return None;
        },
    };
    let description = match get_opt_string(fs, "description") {
        Some(o) => o,
        None => {
            return None;
        },
    };
    let showcase = match get_bool(fs, "showcase") {
        Some(b) => b,
        None => {
            return None;
        },
    };
    let start_date = match get_opt_string(fs, "start_date") {
        Some(o) => o,
        None => {
            return None;
        },
    };
    let group_id = match get_opt_string(fs, "group_id") {
        Some(o) => o,
        None => {
            return None;
        },
    };
    let page_id = match get_string(fs, "page_id") {
        Some(s) => s,
        None => {
            return None;
        },
    };
    let group = match get_bool(fs, "group") {
        Some(b) => b,
        None => {
            return None;
        },
    };
    let only_show_if_degraded = match get_bool(fs, "only_show_if_degraded") {
        Some(b) => b,
        None => {
            return None;
        },
    };
    Some(
        Component {
            id,
            name,
            status,
            created_at,
            updated_at,
            position,
            description,
            showcase,
            start_date,
            group_id,
            page_id,
            group,
            only_show_if_degraded,
        },
    )
}

/// A JSON value decodes as one incident.
pub open spec fn incident_ok(j: Json) -> bool {
    match j {
        Json::Object(fs) => {
            &&& str_field(fs@, "created_at"@) is Some
            &&& str_field(fs@, "id"@) is Some
            &&& str_field(fs@, "impact"@) is Some
            &&& (match spec_lookup(fs@, "incident_updates"@) {
                Some(Json::Array(v)) => forall|i: int|
                    0 <= i < v@.len() ==> #[trigger] update_ok(v@[i]),
                _ => false,
            })
            &&& opt_str_field(fs@, "monitoring_at"@) is Some
            &&& str_field(fs@, "name"@) is Some
            &&& str_field(fs@, "page_id"@) is Some
            &&& opt_str_field(fs@, "resolved_at"@) is Some
            &&& str_field(fs@, "shortlink"@) is Some
            &&& str_field(fs@, "status"@) is Some
            &&& str_field(fs@, "updated_at"@) is Some
        },
        _ => false,
    }
}

/// `x` is exactly what the JSON value decodes to as an incident.
pub open spec fn incident_matches(x: Incident, j: Json) -> bool {
    match j {
        Json::Object(fs) => {
            &&& str_field(fs@, "created_at"@) == Some(x.created_at@)
            &&& str_field(fs@, "id"@) == Some(x.id@)
            &&& str_field(fs@, "impact"@) == Some(x.impact@)
            &&& (match spec_lookup(fs@, "incident_updates"@) {
                Some(Json::Array(v)) => x.incident_updates@.len() == v@.len() && (forall|i: int|
                    0 <= i < v@.len() ==> #[trigger] update_matches(x.incident_updates@[i], v@[i])),
                _ => false,
            })
            &&& opt_str_field(fs@, "monitoring_at"@) == Some(opt_view(x.monitoring_at))
            &&& str_field(fs@, "name"@) == Some(x.name@)
            &&& str_field(fs@, "page_id"@) == Some(x.page_id@)
            &&& opt_str_field(fs@, "resolved_at"@) == Some(opt_view(x.resolved_at))
            &&& str_field(fs@, "shortlink"@) == Some(x.shortlink@)
            &&& str_field(fs@, "status"@) == Some(x.status@)
            &&& str_field(fs@, "updated_at"@) == Some(x.updated_at@)
        },
        _ => false,
    }
}

/// Decodes one incident, its updates in order.
pub fn decode_incident(j: &Json) -> (r: Option<Incident>)
    ensures
        r is Some <==> incident_ok(*j),
        (r matches Some(x) ==> incident_matches(x, *j)),
{
    let fs = match j {
        Json::Object(fs) => fs,
        _ => {
            return None;
        },
    };
    let created_at = match get_string(fs, "created_at") {
        Some(s) => s,
        None => {
            return None;
        },
    };
    let id = match get_string(fs, "id") {
        Some(s) => s,
        None => {
            return None;
        },
    };
    let impact = match get_string(fs, "impact") {
        Some(s) => s,
        None => {
            return None;
        },
    };
    let incident_updates = match lookup(fs, "incident_updates") {
        Some(uj) => match uj {
            Json::Array(v) => match decode_incident_updates(v) {
                Some(us) => us,
                None => {
                    return None;
                },
            },
            _ => {
                return None;
            },
        },
        None => {
            return None;
        },
    };
    let monitoring_at = match get_opt_string(fs, "monitoring_at") {
        Some(o) => o,
        None => {
            return None;
        },
    };
    let name = match get_string(fs, "name") {
        Some(s) => s,
        None => {
            return None;
        },
    };
    let page_id = match get_string(fs, "page_id") {
        Some(s) => s,
        None => {
            return None;
        },
    };
    let resolved_at = match get_opt_string(fs, "resolved_at") {
        Some(o) => o,
        None => {
            return None;
        },
    };
    let shortlink = match get_string(fs, "shortlink") {
        Some(s) => s,
        None => {
            return None;
        },
    };
    let status = match get_string(fs, "status") {
        Some(s) => s,
        None => {
            return None;
        },
    };
    let updated_at = match get_string(fs, "updated_at") {
        Some(s) => s,
        None => {
            return None;
        },
    };
    Some(
        Incident {
            created_at,
            id,
            impact,
            incident_updates,
            monitoring_at,
            name,
            page_id,
            resolved_at,
            shortlink,
            status,
            updated_at,
        },
    )
}

/// A JSON value decodes as one scheduled maintenance.
pub open spec fn maintenance_ok(j: Json) -> bool {
    match j {
        Json::Object(fs) => {
            &&& str_field(fs@, "created_at"@) is Some
            &&& str_field(fs@, "id"@) is Some
            &&& str_field(fs@, "impact"@) is Some
            &&& (match spec_lookup(fs@, "incident_updates"@) {
                Some(Json::Array(v)) => forall|i: int|
                    0 <= i < v@.len() ==> #[trigger] update_ok(v@[i]),
                _ => false,
            })
            &&& opt_str_field(fs@, "monitoring_at"@) is Some
            &&& str_field(fs@, "name"@) is Some
            &&& str_field(fs@, "page_id"@) is Some
            &&& opt_str_field(fs@, "resolved_at"@) is Some
            &&& str_field(fs@, "scheduled_for"@) is Some
            &&& str_field(fs@, "scheduled_until"@) is Some
            &&& str_field(fs@, "shortlink"@) is Some
            &&& str_field(fs@, "status"@) is Some
            &&& str_field(fs@, "updated_at"@) is Some
        },
        _ => false,
    }
}

/// `x` is exactly what the JSON value decodes to as a maintenance.
pub open spec fn maintenance_matches(x: Maintenance, j: Json) -> bool {
    match j {
        Json::Object(fs) => {
            &&& str_field(fs@, "created_at"@) == Some(x.created_at@)
            &&& str_field(fs@, "id"@) == Some(x.id@)
            &&& str_field(fs@, "impact"@) == Some(x.impact@)
            &&& (match spec_lookup(fs@, "incident_updates"@) {
                Some(Json::Array(v)) => x.incident_updates@.len() == v@.len() && (forall|i: int|
                    0 <= i < v@.len() ==> #[trigger] mupdate_matches(x.incident_updates@[i], v@[i])),
                _ => false,
            })
            &&& opt_str_field(fs@, "monitoring_at"@) == Some(opt_view(x.monitoring_at))
            &&& str_field(fs@, "name"@) == Some(x.name@)
            &&& str_field(fs@, "page_id"@) == Some(x.page_id@)
            &&& opt_str_field(fs@, "resolved_at"@) == Some(opt_view(x.resolved_at))
            &&& str_field(fs@, "scheduled_for"@) == Some(x.scheduled_for@)
            &&& str_field(fs@, "scheduled_until"@) == Some(x.scheduled_until@)
            &&& str_field(fs@, "shortlink"@) == Some(x.shortlink@)
            &&& str_field(fs@, "status"@) == Some(x.status@)
            &&& str_field(fs@, "updated_at"@) == Some(x.updated_at@)
        },
        _ => false,
    }
}

/// Decodes one scheduled maintenance, its updates in order.
pub fn decode_maintenance(j: &Json) -> (r: Option<Maintenance>)
    ensures
        r is Some <==> maintenance_ok(*j),
        (r matches Some(x) ==> maintenance_matches(x, *j)),
{
    let fs = match j {
        Json::Object(fs) => fs,
        _ => {
            return None;
        },
    };
    let created_at = match get_string(fs, "created_at") {
        Some(s) => s,
        None => {
            return None;
        },
    };
    let id = match get_string(fs, "id") {
        Some(s) => s,
        None => {
            return None;
        },
    };
    let impact = match get_string(fs, "impact") {
        Some(s) => s,
        None => {
            return None;
        },
    };
    let incident_updates = match lookup(fs, "incident_updates") {
        Some(uj) => match uj {
            Json::Array(v) => match decode_maintenance_updates(v) {
                Some(us) => us,
                None => {
                    return None;
                },
            },
            _ => {
                return None;
            },
        },
        None => {
            return None;
        },
    };
    let monitoring_at = match get_opt_string(fs, "monitoring_at") {
        Some(o) => o,
        None => {
            return None;
        },
    };
    let name = match get_string(fs, "name") {
        Some(s) => s,
        None => {
            return None;
        },
    };
    let page_id = match get_string(fs, "page_id") {
        Some(s) => s,
        None => {
            return None;
        },
    };
    let resolved_at = match get_opt_string(fs, "resolved_at") {
        Some(o) => o,
        None => {
            return None;
        },
    };
    let scheduled_for = match get_string(fs, "scheduled_for") {
        Some(s) => s,
        None => {
            return None;
        },
    };
    let scheduled_until = match get_string(fs, "scheduled_until") {
        Some(s) => s,
        None => {
            return None;
        },
    };
    let shortlink = match get_string(fs, "shortlink") {
        Some(s) => s,
        None => {
            return None;
        },
    };
    let status = match get_string(fs, "status") {
        Some(s) => s,
        None => {
            return None;
        },
    };
    let updated_at = match get_string(fs, "updated_at") {
        Some(s) => s,
        None => {
            return None;
        },
    };
    Some(
        Maintenance {
            created_at,
            id,
            impact,
            incident_updates,
            monitoring_at,
            name,
            page_id,
            resolved_at,
            scheduled_for,
            scheduled_until,
            shortlink,
            status,
            updated_at,
        },
    )
}

/// Decodes an ordered array of components; order and positions are
/// preserved.
pub fn decode_components(v: &Vec<Json>) -> (r: Option<Vec<Component>>)
    ensures
        r is Some <==> (forall|i: int| 0 <= i < v@.len() ==> #[trigger] component_ok(v@[i])),
        (r matches Some(cs) ==> cs@.len() == v@.len() && (forall|i: int|
            0 <= i < v@.len() ==> #[trigger] component_matches(cs@[i], v@[i]))),
{
    let mut out: Vec<Component> = Vec::new();
    let n = v.len();
    let mut i: usize = 0;
    while i < n
        invariant
            n == v@.len(),
            i <= n,
            out@.len() == i,
            forall|k: int| 0 <= k < i ==> #[trigger] component_ok(v@[k]),
            forall|k: int| 0 <= k < i ==> #[trigger] component_matches(out@[k], v@[k]),
        decreases n - i,
    {
        match decode_component(&v[i]) {
            Some(c) => out.push(c),
            None => {
                proof {
                    assert(!component_ok(v@[i as int]));
                }
                return None;
            },
        }
        i += 1;
    }
    Some(out)
}

/// Decodes an ordered array of incidents; order is preserved.
pub fn decode_incidents(v: &Vec<Json>) -> (r: Option<Vec<Incident>>)
    ensures
        r is Some <==> (forall|i: int| 0 <= i < v@.len() ==> #[trigger] incident_ok(v@[i])),
        (r matches Some(xs) ==> xs@.len() == v@.len() && (forall|i: int|
            0 <= i < v@.len() ==> #[trigger] incident_matches(xs@[i], v@[i]))),
{
    let mut out: Vec<Incident> = Vec::new();
    let n = v.len();
    let mut i: usize = 0;
    while i < n
        invariant
            n == v@.len(),
            i <= n,
            out@.len() == i,
            forall|k: int| 0 <= k < i ==> #[trigger] incident_ok(v@[k]),
            forall|k: int| 0 <= k < i ==> #[trigger] incident_matches(out@[k], v@[k]),
        decreases n - i,
    {
        match decode_incident(&v[i]) {
            Some(x) => out.push(x),
            None => {
                proof {
                    assert(!incident_ok(v@[i as int]));
                }
                return None;
            },
        }
        i += 1;
    }
    Some(out)
}

/// Decodes an ordered array of scheduled maintenances; order is preserved.
pub fn decode_maintenances(v: &Vec<Json>) -> (r: Option<Vec<Maintenance>>)
    ensures
        r is Some <==> (forall|i: int| 0 <= i < v@.len() ==> #[trigger] maintenance_ok(v@[i])),
        (r matches Some(xs) ==> xs@.len() == v@.len() && (forall|i: int|
            0 <= i < v@.len() ==> #[trigger] maintenance_matches(xs@[i], v@[i]))),
{
    let mut out: Vec<Maintenance> = Vec::new();
    let n = v.len();
    let mut i: usize = 0;
    while i < n
        invariant
            n == v@.len(),
            i <= n,
            out@.len() == i,
            forall|k: int| 0 <= k < i ==> #[trigger] maintenance_ok(v@[k]),
            forall|k: int| 0 <= k < i ==> #[trigger] maintenance_matches(out@[k], v@[k]),
        decreases n - i,
    {
        match decode_maintenance(&v[i]) {
            Some(x) => out.push(x),
            None => {
                proof {
                    assert(!maintenance_ok(v@[i as int]));
                }
                return None;
            },
        }
        i += 1;
    }
    Some(out)
}

/// The `components` collection may be absent or null; when present it must
/// be an array of well-formed components.
pub open spec fn components_section_ok(o: Option<Json>) -> bool {
    match o {
        None => true,
        Some(Json::Null) => true,
        Some(Json::Array(v)) => forall|i: int| 0 <= i < v@.len() ==> #[trigger] component_ok(v@[i]),
        Some(_) => false,
    }
}

/// The decoded `components` collection corresponds to its JSON member.
pub open spec fn components_section_matches(x: Option<Vec<Component>>, o: Option<Json>) -> bool {
    match o {
        None => x is None,
        Some(Json::Null) => x is None,
        Some(Json::Array(v)) => (x matches Some(xs) && xs@.len() == v@.len() && (forall|i: int|
            0 <= i < v@.len() ==> #[trigger] component_matches(xs@[i], v@[i]))),
        Some(_) => false,
    }
}

/// The `incidents` collection may be absent or null; when present it must
/// be an array of well-formed incidents.
pub open spec fn incidents_section_ok(o: Option<Json>) -> bool {
    match o {
        None => true,
        Some(Json::Null) => true,
        Some(Json::Array(v)) => forall|i: int| 0 <= i < v@.len() ==> #[trigger] incident_ok(v@[i]),
        Some(_) => false,
    }
}

/// The decoded `incidents` collection corresponds to its JSON member.
pub open spec fn incidents_section_matches(x: Option<Vec<Incident>>, o: Option<Json>) -> bool {
    match o {
        None => x is None,
        Some(Json::Null) => x is None,
        Some(Json::Array(v)) => (x matches Some(xs) && xs@.len() == v@.len() && (forall|i: int|
            0 <= i < v@.len() ==> #[trigger] incident_matches(xs@[i], v@[i]))),
        Some(_) => false,
    }
}

/// The `scheduled_maintenances` collection may be absent or null; when
/// present it must be an array of well-formed maintenances.
pub open spec fn maintenances_section_ok(o: Option<Json>) -> bool {
    match o {
        None => true,
        Some(Json::Null) => true,
        Some(Json::Array(v)) => forall|i: int|
            0 <= i < v@.len() ==> #[trigger] maintenance_ok(v@[i]),
        Some(_) => false,
    }
}

/// The decoded `scheduled_maintenances` collection corresponds to its JSON
/// member.
pub open spec fn maintenances_section_matches(x: Option<Vec<Maintenance>>, o: Option<Json>) -> bool {
    match o {
        None => x is None,
        Some(Json::Null) => x is None,
        Some(Json::Array(v)) => (x matches Some(xs) && xs@.len() == v@.len() && (forall|i: int|
            0 <= i < v@.len() ==> #[trigger] maintenance_matches(xs@[i], v@[i]))),
        Some(_) => false,
    }
}

/// The `status` member may be absent or null; when present it must be a
/// well-formed status indicator.
pub open spec fn status_section_ok(o: Option<Json>) -> bool {
    match o {
        None => true,
        Some(Json::Null) => true,
        Some(sj) => status_ok(sj),
    }
}

/// The decoded `status` member corresponds to its JSON member.
pub open spec fn status_section_matches(x: Option<Status>, o: Option<Json>) -> bool {
    match o {
        None => x is None,
        Some(Json::Null) => x is None,
        Some(sj) => (x matches Some(st) && status_matches(st, sj)),
    }
}

/// A JSON document decodes as a status response: an object whose `page`
/// member is a well-formed page, and whose action-specific members, where
/// present and non-null, are well-formed. Members with other names are
/// ignored.
pub open spec fn response_ok(j: Json) -> bool {
    match j {
        Json::Object(fs) => {
            &&& (match spec_lookup(fs@, "page"@) {
                Some(pj) => page_ok(pj),
                None => false,
            })
            &&& components_section_ok(spec_lookup(fs@, "components"@))
            &&& incidents_section_ok(spec_lookup(fs@, "incidents"@))
            &&& maintenances_section_ok(spec_lookup(fs@, "scheduled_maintenances"@))
            &&& status_section_ok(spec_lookup(fs@, "status"@))
        },
        _ => false,
    }
}

/// `x` is exactly what the JSON document decodes to as a status response.
pub open spec fn response_matches(x: ApiResponse, j: Json) -> bool {
    match j {
        Json::Object(fs) => {
            &&& (match spec_lookup(fs@, "page"@) {
                Some(pj) => page_matches(x.page, pj),
                None => false,
            })
            &&& components_section_matches(x.components, spec_lookup(fs@, "components"@))
            &&& incidents_section_matches(x.incidents, spec_lookup(fs@, "incidents"@))
            &&& maintenances_section_matches(
                x.scheduled_maintenances,
                spec_lookup(fs@, "scheduled_maintenances"@),
            )
            &&& status_section_matches(x.status, spec_lookup(fs@, "status"@))
        },
        _ => false,
    }
}

/// The error a malformed document decodes to.
fn decode_failure() -> (e: CustomError)
    ensures
        (e matches CustomError::Transport(c) && c@ == "error decoding response body"@),
{
    CustomError::Transport(String::from_str("error decoding response body"))
}

/// Decodes a status document. Succeeds exactly on well-formed documents;
/// everything else is reported as a transport-level decode failure.
pub fn decode_response(j: &Json) -> (r: Result<ApiResponse, CustomError>)
    ensures
        r is Ok <==> response_ok(*j),
        (r matches Ok(x) ==> response_matches(x, *j)),
        (r matches Err(e) ==> (e matches CustomError::Transport(c) && c@
            == "error decoding response body"@)),
{
    let fs = match j {
        Json::Object(fs) => fs,
        _ => {
            return Err(decode_failure());
        },
    };
    let page = match lookup(fs, "page") {
        Some(pj) => match decode_page(pj) {
            Some(p) => p,
            None => {
                return Err(decode_failure());
            },
        },
        None => {
            return Err(decode_failure());
        },
    };
    let components = match lookup(fs, "components") {
        None => None,
        Some(cj) => match cj {
            Json::Null => None,
            Json::Array(v) => match decode_components(v) {
                Some(cs) => Some(cs),
                None => {
                    return Err(decode_failure());
                },
            },
            _ => {
                return Err(decode_failure());
            },
        },
    };
    let incidents = match lookup(fs, "incidents") {
        None => None,
        Some(ij) => match ij {
            Json::Null => None,
            Json::Array(v) => match decode_incidents(v) {
                Some(xs) => Some(xs),
                None => {
                    return Err(decode_failure());
                },
            },
            _ => {
                return Err(decode_failure());
            },
        },
    };
    let scheduled_maintenances = match lookup(fs, "scheduled_maintenances") {
        None => None,
        Some(mj) => match mj {
            Json::Null => None,
            Json::Array(v) => match decode_maintenances(v) {
                Some(xs) => Some(xs),
                None => {
                    return Err(decode_failure());
                },
            },
            _ => {
                return Err(decode_failure());
            },
        },
    };
    let status = match lookup(fs, "status") {
        None => None,
        Some(sj) => match sj {
            Json::Null => None,
            _ => match decode_status(sj) {
                Some(st) => Some(st),
                None => {
                    return Err(decode_failure());
                },
            },
        },
    };
    Ok(ApiResponse { page, components, incidents, scheduled_maintenances, status })
}

/// Law: decoding is tolerant. Any object whose `page` member is a
/// well-formed page decodes successfully however many members with other
/// names stand beside it, as long as the four action-specific members are
/// absent; and every decoded value then carries all four collections as
/// absent.
pub proof fn lemma_decode_tolerant(j: Json)
    requires
        j matches Json::Object(fs),
        (match j {
            Json::Object(fs) => {
                &&& (match spec_lookup(fs@, "page"@) {
                    Some(pj) => page_ok(pj),
                    None => false,
                })
                &&& spec_lookup(fs@, "components"@) is None
                &&& spec_lookup(fs@, "incidents"@) is None
                &&& spec_lookup(fs@, "scheduled_maintenances"@) is None
                &&& spec_lookup(fs@, "status"@) is None
            },
            _ => false,
        }),
    ensures
        response_ok(j),
        forall|x: ApiResponse| #[trigger] response_matches(x, j) ==> x.components is None
            && x.incidents is None && x.scheduled_maintenances is None && x.status is None,
{
}

} // verus!
