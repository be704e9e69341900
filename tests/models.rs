use riverview_admin::flow::FlowStatus;
use riverview_admin::login::bearer_token_of;
use riverview_admin::services::{ServiceState, ServicesConfig};
use riverview_admin::settings::{PublicSettings, SiteSettings};
use riverview_admin::weather::{weather_code_to_conditions, AlertSeverity};

#[test]
fn flow_status_texts() {
    assert_eq!(FlowStatus::Safe.message(), "Conditions are ideal for all water activities");
    assert_eq!(FlowStatus::Caution.message(), "Exercise caution - elevated water levels");
    assert_eq!(FlowStatus::Danger.message(), "Water activities suspended due to high flow");
    assert_eq!(FlowStatus::Unknown.message(), "Unable to determine current conditions");
    assert_eq!(FlowStatus::Safe.color(), "#22c55e");
    assert_eq!(FlowStatus::Caution.color(), "#eab308");
    assert_eq!(FlowStatus::Danger.color(), "#ef4444");
    assert_eq!(FlowStatus::Unknown.color(), "#6b7280");
}

#[test]
fn service_state_colors() {
    assert_eq!(ServiceState::Open.color(), "#22c55e");
    assert_eq!(ServiceState::Limited.color(), "#eab308");
    assert_eq!(ServiceState::Closed.color(), "#ef4444");
    assert_eq!(ServiceState::Seasonal.color(), "#3b82f6");
}

#[test]
fn weather_codes() {
    assert_eq!(weather_code_to_conditions(1000), "Clear");
    assert_eq!(weather_code_to_conditions(1001), "Cloudy");
    assert_eq!(weather_code_to_conditions(4201), "Heavy Rain");
    assert_eq!(weather_code_to_conditions(7102), "Light Ice Pellets");
    assert_eq!(weather_code_to_conditions(8000), "Thunderstorm");
    assert_eq!(weather_code_to_conditions(0), "Unknown");
    assert_eq!(weather_code_to_conditions(-1), "Unknown");
    assert_eq!(weather_code_to_conditions(9999), "Unknown");
}

#[test]
fn alert_severity_from_text() {
    assert_eq!(AlertSeverity::from("Severe"), AlertSeverity::Severe);
    assert_eq!(AlertSeverity::from("EXTREME"), AlertSeverity::Extreme);
    assert_eq!(AlertSeverity::from("moderate"), AlertSeverity::Moderate);
    assert_eq!(AlertSeverity::from("Minor"), AlertSeverity::Minor);
    assert_eq!(AlertSeverity::from("Unknown"), AlertSeverity::Unknown);
    assert_eq!(AlertSeverity::from(""), AlertSeverity::Unknown);
    assert_eq!(AlertSeverity::from_lowercase("Severe"), AlertSeverity::Unknown);
    assert_eq!(AlertSeverity::from_lowercase("severe"), AlertSeverity::Severe);
}

#[test]
fn default_settings_and_public_subset() {
    let s = SiteSettings::default();
    assert_eq!(s.general.site_name, "Riverview Adventure Company");
    assert_eq!(s.business.hours.saturday.close, "18:00");
    assert_eq!(s.business.hours.sunday.open, "10:00");
    assert!(s.business.hours.monday.by_appointment);
    assert_eq!(s.seo.meta_keywords.len(), 6);
    assert_eq!(s.seo.meta_keywords[5], "Great Sauk Trail");
    assert!(s.social.twitter_url.is_empty());
    let p = PublicSettings::from_settings(&s);
    assert_eq!(p.address, "740 Water St., Sauk City, WI 53583");
    assert_eq!(p.site_name, "Riverview Adventure Company");
    assert_eq!(p.primary_color, "#0ea5e9");
    assert_eq!(p.phone, "+1 608 515 3456");
    assert_eq!(p.social, s.social);
}

#[test]
fn services_start_with_given_timestamp() {
    let c = ServicesConfig::initial("2024-05-01T00:00:00+00:00");
    assert_eq!(c.tubing.name, "River Tubing");
    assert_eq!(c.tubing.status, ServiceState::Seasonal);
    assert_eq!(c.kayak.message, "Available seasonally");
    assert_eq!(c.ebike.status, ServiceState::Open);
    assert_eq!(c.bike_rental.icon, "bicycle");
    assert_eq!(c.bike_repair.id, "bike_repair");
    assert_eq!(c.bike_repair.updated_at, "2024-05-01T00:00:00+00:00");
    let d = ServicesConfig::default();
    assert_eq!(d.tubing.updated_at, d.bike_repair.updated_at);
    assert!(!d.tubing.updated_at.is_empty());
    assert_eq!(d.kayak.name, "Kayak & Canoe");
}

#[test]
fn bearer_prefix_is_stripped_once() {
    assert_eq!(bearer_token_of("Bearer abc"), "abc");
    assert_eq!(bearer_token_of("Bearer Bearer abc"), "Bearer abc");
    assert_eq!(bearer_token_of("abc"), "abc");
    assert_eq!(bearer_token_of("Bearer"), "Bearer");
    assert_eq!(bearer_token_of("Bearer "), "");
    assert_eq!(bearer_token_of("Béarer x"), "Béarer x");
}
