//! Data model of the status API: the closed action enumeration, the error
//! taxonomy, and the response records that a status document decodes into.

use vstd::prelude::*;

verus! {

use vstd::string::StringExecFns;

/// One of the eight read-only endpoints of a Statuspage-compatible host.
#[derive(Debug, Clone, Copy, PartialEq, Eq, Structural)]
pub enum ApiAction {
    Summary,
    Status,
    Components,
    UnresolvedIncidents,
    AllIncidents,
    UpcomingMaintenances,
    ActiveMaintenances,
    AllMaintenances,
}

/// The failure taxonomy of the client.
///
/// `InvalidAction` reports an action token outside the closed enumeration;
/// `Transport` carries a human-readable description of any failure during
/// client construction, the request, the response, or decoding.
#[derive(Debug, Clone, PartialEq, Eq)]
pub enum CustomError {
    InvalidAction(String),
    Transport(String),
}

impl CustomError {
    /// The wire form of an error: a single human-readable line.
    pub fn message(&self) -> (r: String)
        ensures
            (match *self {
                CustomError::InvalidAction(name) => r@ == "Invalid action: "@ + name@,
                CustomError::Transport(cause) => r@ == "Request failed: "@ + cause@,
            }),
    {
        match self {
            CustomError::InvalidAction(name) => {
                let mut s = String::from_str("Invalid action: ");
                s.append(name.as_str());
                s
            },
            CustomError::Transport(cause) => {
                let mut s = String::from_str("Request failed: ");
                s.append(cause.as_str());
                s
            },
        }
    }
}

/// The universal `page` object present in every status document.
#[derive(Debug, Clone, PartialEq, Eq)]
pub struct Page {
    pub id: String,
    pub name: String,
    pub url: String,
    pub time_zone: String,
    pub updated_at: String,
}

/// One component of the monitored page.
#[derive(Debug, Clone, PartialEq, Eq)]
pub struct Component {
    pub id: String,
    pub name: String,
    pub status: Option<String>,
    pub created_at: String,
    pub updated_at: String,
    pub position: i32,
    pub description: Option<String>,
    pub showcase: bool,
    pub start_date: Option<String>,
    pub group_id: Option<String>,
    pub page_id: String,
    pub group: bool,
    pub only_show_if_degraded: bool,
}

/// One incident, with its ordered sequence of updates.
#[derive(Debug, Clone, PartialEq, Eq)]
pub struct Incident {
    pub created_at: String,
    pub id: String,
    pub impact: String,
    pub incident_updates: Vec<IncidentUpdate>,
    pub monitoring_at: Option<String>,
    pub name: String,
    pub page_id: String,
    pub resolved_at: Option<String>,
    pub shortlink: String,
    pub status: String,
    pub updated_at: String,
}

/// One update attached to an incident.
#[derive(Debug, Clone, PartialEq, Eq)]
pub struct IncidentUpdate {
    pub body: String,
    pub created_at: String,
    pub display_at: String,
    pub id: String,
    pub incident_id: String,
    pub status: String,
    pub updated_at: String,
}

/// One scheduled maintenance, with its ordered sequence of updates.
#[derive(Debug, Clone, PartialEq, Eq)]
pub struct Maintenance {
    pub created_at: String,
    pub id: String,
    pub impact: String,
    pub incident_updates: Vec<MaintenanceUpdate>,
    pub monitoring_at: Option<String>,
    pub name: String,
    pub page_id: String,
    pub resolved_at: Option<String>,
    pub scheduled_for: String,
    pub scheduled_until: String,
    pub shortlink: String,
    pub status: String,
    pub updated_at: String,
}

/// One update attached to a scheduled maintenance.
#[derive(Debug, Clone, PartialEq, Eq)]
pub struct MaintenanceUpdate {
    pub body: String,
    pub created_at: String,
    pub display_at: String,
    pub id: String,
    pub incident_id: String,
    pub status: String,
    pub updated_at: String,
}

/// The overall status indicator of the page.
#[derive(Debug, Clone, PartialEq, Eq)]
pub struct Status {
    pub indicator: String,
    pub description: Option<String>,
}

/// The union-shaped response record. `page` is always present; the
/// action-specific collections are present only when the queried endpoint
/// returns them.
#[derive(Debug, Clone, PartialEq, Eq)]
pub struct ApiResponse {
    pub page: Page,
    pub components: Option<Vec<Component>>,
    pub incidents: Option<Vec<Incident>>,
    pub scheduled_maintenances: Option<Vec<Maintenance>>,
    pub status: Option<Status>,
}

} // verus!
