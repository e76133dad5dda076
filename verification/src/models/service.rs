//! Services as they are stored, and the bodies that create and change them.

use vstd::prelude::*;
use crate::json::JsonValue;

verus! {

/// A monitored service, as stored.
#[derive(Debug, Clone)]
pub struct Service {
    pub id: String,
    pub name: String,
    pub service_type: String,
    pub config: String,
    pub interval_secs: i64,
    pub enabled: i64,
    pub created_at: String,
    pub updated_at: String,
}

/// The body of a request that creates a service.
#[derive(Debug)]
pub struct CreateService {
    pub name: String,
    pub service_type: String,
    pub config: JsonValue,
    pub interval_secs: Option<i64>,
    pub system_id: Option<String>,
}

/// The body of a request that changes a service; absent fields stay as they
/// are. `config` is the new configuration as JSON text. For `system_id`,
/// `Some(Some(id))` assigns the service to a system, `Some(None)` takes it
/// out of its system, and `None` leaves that as it is.
#[derive(Debug)]
pub struct UpdateService {
    pub name: Option<String>,
    pub config: Option<String>,
    pub interval_secs: Option<i64>,
    pub enabled: Option<bool>,
    pub system_id: Option<Option<String>>,
}

} // verus!
