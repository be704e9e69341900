//! Opening state of the company's services.

use vstd::prelude::*;

verus! {

/// Whether a service is currently offered.
#[derive(Debug, Clone, Copy, PartialEq, Eq)]
pub enum ServiceState {
    Open,
    Limited,
    Closed,
    Seasonal,
}

pub open spec fn service_color(s: ServiceState) -> Seq<char> {
    match s {
        ServiceState::Open => "#22c55e"@,
        ServiceState::Limited => "#eab308"@,
        ServiceState::Closed => "#ef4444"@,
        ServiceState::Seasonal => "#3b82f6"@,
    }
}

impl ServiceState {
    /// The badge colour for this state, as a CSS hex colour.
    pub fn color(&self) -> (r: &'static str)
        ensures
            r@ == service_color(*self),
    {
        match self {
            ServiceState::Open => "#22c55e",
            ServiceState::Limited => "#eab308",
            ServiceState::Closed => "#ef4444",
            ServiceState::Seasonal => "#3b82f6",
        }
    }
}

/// One service as listed on the site.
#[derive(Debug, Clone, PartialEq, Eq)]
pub struct ServiceStatus {
    pub id: String,
    pub name: String,
    pub status: ServiceState,
    pub message: String,
    pub icon: String,
    pub updated_at: String,
}

/// The five services the company offers.
#[derive(Debug, Clone, PartialEq, Eq)]
pub struct ServicesConfig {
    pub tubing: ServiceStatus,
    pub kayak: ServiceStatus,
    pub ebike: ServiceStatus,
    pub bike_rental: ServiceStatus,
    pub bike_repair: ServiceStatus,
}


/// A service with the given fields.
pub open spec fn is_service(
    s: ServiceStatus,
    id: Seq<char>,
    name: Seq<char>,
    status: ServiceState,
    message: Seq<char>,
    icon: Seq<char>,
    updated_at: Seq<char>,
) -> bool {
    &&& s.id@ == id
    &&& s.name@ == name
    &&& s.status == status
    &&& s.message@ == message
    &&& s.icon@ == icon
    &&& s.updated_at@ == updated_at
}

fn service(
    id: &str,
    name: &str,
    status: ServiceState,
    message: &str,
    icon: &str,
    updated_at: &str,
) -> (r: ServiceStatus)
    ensures
        is_service(r, id@, name@, status, message@, icon@, updated_at@),
{
    ServiceStatus {
        id: id.to_string(),
        name: name.to_string(),
        status,
        message: message.to_string(),
        icon: icon.to_string(),
        updated_at: updated_at.to_string(),
    }
}

/// Relies on chrono's `Utc::now`, written with `DateTime::to_rfc3339`: the
/// current UTC time as RFC 3339 text. Nothing is promised of its value.
#[verifier::external_body]
fn now_rfc3339() -> String {
    chrono::Utc::now().to_rfc3339()
}

impl ServicesConfig {
    /// The services as first offered, each marked as updated at `updated_at`.
    pub fn initial(updated_at: &str) -> (r: ServicesConfig)
        ensures
            is_service(r.tubing, "tubing"@, "River Tubing"@, ServiceState::Seasonal, "Open Memorial Day through Labor Day"@, "water"@, updated_at@),
            is_service(r.kayak, "kayak"@, "Kayak & Canoe"@, ServiceState::Seasonal, "Available seasonally"@, "kayak"@, updated_at@),
            is_service(r.ebike, "ebike"@, "E-Bike Sales & Rentals"@, ServiceState::Open, "Authorized Velotric dealer"@, "bike"@, updated_at@),
            is_service(r.bike_rental, "bike_rental"@, "Bike Rentals"@, ServiceState::Open, "Available by appointment"@, "bicycle"@, updated_at@),
            is_service(r.bike_repair, "bike_repair"@, "Bike Repairs"@, ServiceState::Open, "Full service bike shop"@, "tools"@, updated_at@),
    {
        ServicesConfig {
            tubing: service("tubing", "River Tubing", ServiceState::Seasonal, "Open Memorial Day through Labor Day", "water", updated_at),
            kayak: service("kayak", "Kayak & Canoe", ServiceState::Seasonal, "Available seasonally", "kayak", updated_at),
            ebike: service("ebike", "E-Bike Sales & Rentals", ServiceState::Open, "Authorized Velotric dealer", "bike", updated_at),
            bike_rental: service("bike_rental", "Bike Rentals", ServiceState::Open, "Available by appointment", "bicycle", updated_at),
            bike_repair: service("bike_repair", "Bike Repairs", ServiceState::Open, "Full service bike shop", "tools", updated_at),
        }
    }
}

impl Default for ServicesConfig {
    /// The services as first offered, marked as updated now.
    fn default() -> (r: ServicesConfig)
        ensures
            is_service(r.tubing, "tubing"@, "River Tubing"@, ServiceState::Seasonal, "Open Memorial Day through Labor Day"@, "water"@, r.tubing.updated_at@),
            is_service(r.kayak, "kayak"@, "Kayak & Canoe"@, ServiceState::Seasonal, "Available seasonally"@, "kayak"@, r.tubing.updated_at@),
            is_service(r.ebike, "ebike"@, "E-Bike Sales & Rentals"@, ServiceState::Open, "Authorized Velotric dealer"@, "bike"@, r.tubing.updated_at@),
            is_service(r.bike_rental, "bike_rental"@, "Bike Rentals"@, ServiceState::Open, "Available by appointment"@, "bicycle"@, r.tubing.updated_at@),
            is_service(r.bike_repair, "bike_repair"@, "Bike Repairs"@, ServiceState::Open, "Full service bike shop"@, "tools"@, r.tubing.updated_at@),
    {
        let now = now_rfc3339();
        ServicesConfig::initial(now.as_str())
    }
}

} // verus!
