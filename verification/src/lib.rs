//! Client logic for a Statuspage-compatible status API: resolving logical
//! actions to request URLs, selecting a transport profile, and decoding the
//! polymorphic JSON status document into a typed response model.

pub mod api_action;
pub mod decode;
pub mod fetch;
pub mod json;
pub mod models;
pub mod text;
pub mod transport;

pub use models::ApiAction;
pub use models::ApiResponse;
pub use models::Component;
pub use models::CustomError;
pub use models::Incident;
pub use models::IncidentUpdate;
pub use models::Maintenance;
pub use models::MaintenanceUpdate;
pub use models::Page;
pub use models::Status;
pub use fetch::finish_fetch;
pub use fetch::prepare_fetch;
pub use transport::build_client;
pub use transport::profile_for;
pub use transport::Profile;
