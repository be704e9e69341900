//! Site settings edited from the admin console, and the public subset the
//! site itself reads.

use vstd::prelude::*;
use vstd::string::StringExecFns;

verus! {

/// Everything the admin console can configure about the site.
#[derive(Debug, Clone, PartialEq, Eq)]
pub struct SiteSettings {
    pub general: GeneralSettings,
    pub appearance: AppearanceSettings,
    pub business: BusinessSettings,
    pub social: SocialSettings,
    pub seo: SeoSettings,
    pub notifications: NotificationSettings,
}

#[derive(Debug, Clone, PartialEq, Eq)]
pub struct GeneralSettings {
    pub site_name: String,
    pub tagline: String,
    pub site_url: String,
    pub timezone: String,
    pub language: String,
}

#[derive(Debug, Clone, PartialEq, Eq)]
pub struct AppearanceSettings {
    pub primary_color: String,
    pub secondary_color: String,
    pub accent_color: String,
    pub background_color: String,
    pub text_color: String,
    pub font_family: String,
    pub logo_url: String,
    pub favicon_url: String,
    pub hero_image_url: String,
    pub dark_mode_enabled: bool,
}

#[derive(Debug, Clone, PartialEq, Eq)]
pub struct BusinessSettings {
    pub address: String,
    pub city: String,
    pub state: String,
    pub zip: String,
    pub phone: String,
    pub email: String,
    pub hours: BusinessHours,
    pub appointment_only: bool,
}

#[derive(Debug, Clone, PartialEq, Eq)]
pub struct BusinessHours {
    pub monday: DayHours,
    pub tuesday: DayHours,
    pub wednesday: DayHours,
    pub thursday: DayHours,
    pub friday: DayHours,
    pub saturday: DayHours,
    pub sunday: DayHours,
}

/// Opening hours of one day, as `HH:MM` text.
#[derive(Debug, Clone, PartialEq, Eq)]
pub struct DayHours {
    pub open: String,
    pub close: String,
    pub closed: bool,
    pub by_appointment: bool,
}

#[derive(Debug, Clone, PartialEq, Eq)]
pub struct SocialSettings {
    pub facebook_url: String,
    pub instagram_url: String,
    pub twitter_url: String,
    pub youtube_url: String,
    pub tiktok_url: String,
}

#[derive(Debug, Clone, PartialEq, Eq)]
pub struct SeoSettings {
    pub meta_title: String,
    pub meta_description: String,
    pub meta_keywords: Vec<String>,
    pub og_image_url: String,
    pub google_analytics_id: String,
}

#[derive(Debug, Clone, PartialEq, Eq)]
pub struct NotificationSettings {
    pub email_notifications: bool,
    pub contact_form_email: String,
    pub low_inventory_alerts: bool,
    pub weather_alerts: bool,
}

/// The part of the settings that the public site may read.
#[derive(Debug, Clone, PartialEq, Eq)]
pub struct PublicSettings {
    pub site_name: String,
    pub tagline: String,
    pub primary_color: String,
    pub secondary_color: String,
    pub accent_color: String,
    pub logo_url: String,
    pub phone: String,
    pub email: String,
    pub address: String,
    pub social: SocialSettings,
}

pub open spec fn day_hours_are(d: DayHours, open: Seq<char>, close: Seq<char>, by_appointment: bool) -> bool {
    d.open@ == open && d.close@ == close && !d.closed && d.by_appointment == by_appointment
}

fn day_hours(open: &str, close: &str, by_appointment: bool) -> (r: DayHours)
    ensures
        day_hours_are(r, open@, close@, by_appointment),
{
    DayHours { open: open.to_string(), close: close.to_string(), closed: false, by_appointment }
}

impl Default for SiteSettings {
    /// The settings the site starts with before the admin saves any.
    fn default() -> (r: SiteSettings)
        ensures
            r.general.site_name@ == "Riverview Adventure Company"@,
            r.general.tagline@ == "Start your adventure off right!"@,
            r.general.site_url@ == "https://riverviewadventurecompany.com"@,
            r.general.timezone@ == "America/Chicago"@,
            r.general.language@ == "en"@,
            r.appearance.primary_color@ == "#0ea5e9"@,
            r.appearance.secondary_color@ == "#22c55e"@,
            r.appearance.accent_color@ == "#f59e0b"@,
            r.appearance.background_color@ == "#ffffff"@,
            r.appearance.text_color@ == "#1f2937"@,
            r.appearance.font_family@ == "Inter, sans-serif"@,
            r.appearance.logo_url@ == "/images/logo.png"@,
            r.appearance.favicon_url@ == "/favicon.ico"@,
            r.appearance.hero_image_url@ == "/images/hero.jpg"@,
            !r.appearance.dark_mode_enabled,
            r.business.address@ == "740 Water St."@,
            r.business.city@ == "Sauk City"@,
            r.business.state@ == "WI"@,
            r.business.zip@ == "53583"@,
            r.business.phone@ == "+1 608 515 3456"@,
            r.business.email@ == "riverviewadventureco@gmail.com"@,
            day_hours_are(r.business.hours.monday, "09:00"@, "17:00"@, true),
            day_hours_are(r.business.hours.tuesday, "09:00"@, "17:00"@, true),
            day_hours_are(r.business.hours.wednesday, "09:00"@, "17:00"@, true),
            day_hours_are(r.business.hours.thursday, "09:00"@, "17:00"@, true),
            day_hours_are(r.business.hours.friday, "09:00"@, "17:00"@, true),
            day_hours_are(r.business.hours.saturday, "09:00"@, "18:00"@, false),
            day_hours_are(r.business.hours.sunday, "10:00"@, "16:00"@, false),
            r.business.appointment_only,
            r.social.facebook_url@ == "https://www.facebook.com/riverviewadventureco/"@,
            r.social.instagram_url@ == "https://www.instagram.com/riverviewadventureco/"@,
            r.social.twitter_url@.len() == 0,
            r.social.youtube_url@.len() == 0,
            r.social.tiktok_url@.len() == 0,
            r.seo.meta_title@ == "Wisconsin River Tubing & E-Bike Rentals | Riverview Adventure Company"@,
            r.seo.meta_description@ == "Experience Wisconsin River tubing, kayak rentals, and Velotric e-bikes in Sauk City, WI. Located 20 minutes from Madison. Book your adventure today!"@,
            r.seo.og_image_url@ == "/images/og-image.jpg"@,
            r.seo.google_analytics_id@.len() == 0,
            r.seo.meta_keywords@.len() == 6,
            r.seo.meta_keywords@[0]@ == "Wisconsin River tubing"@,
            r.seo.meta_keywords@[1]@ == "Sauk City"@,
            r.seo.meta_keywords@[2]@ == "e-bike rentals"@,
            r.seo.meta_keywords@[3]@ == "Velotric dealer"@,
            r.seo.meta_keywords@[4]@ == "kayak rentals"@,
            r.seo.meta_keywords@[5]@ == "Great Sauk Trail"@,
            r.notifications.email_notifications,
            r.notifications.contact_form_email@ == "riverviewadventureco@gmail.com"@,
            r.notifications.low_inventory_alerts,
            r.notifications.weather_alerts,
    {
    let general = GeneralSettings {
        site_name: "Riverview Adventure Company".to_string(),
        tagline: "Start your adventure off right!".to_string(),
        site_url: "https://riverviewadventurecompany.com".to_string(),
        timezone: "America/Chicago".to_string(),
        language: "en".to_string(),
    };
    let appearance = AppearanceSettings {
        primary_color: "#0ea5e9".to_string(),
        secondary_color: "#22c55e".to_string(),
        accent_color: "#f59e0b".to_string(),
        background_color: "#ffffff".to_string(),
        text_color: "#1f2937".to_string(),
        font_family: "Inter, sans-serif".to_string(),
        logo_url: "/images/logo.png".to_string(),
        favicon_url: "/favicon.ico".to_string(),
        hero_image_url: "/images/hero.jpg".to_string(),
        dark_mode_enabled: false,
    };
    let hours = BusinessHours {
        monday: day_hours("09:00", "17:00", true),
        tuesday: day_hours("09:00", "17:00", true),
        wednesday: day_hours("09:00", "17:00", true),
        thursday: day_hours("09:00", "17:00", true),
        friday: day_hours("09:00", "17:00", true),
        saturday: day_hours("09:00", "18:00", false),
        sunday: day_hours("10:00", "16:00", false),
    };
    let business = BusinessSettings {
        address: "740 Water St.".to_string(),
        city: "Sauk City".to_string(),
        state: "WI".to_string(),
        zip: "53583".to_string(),
        phone: "+1 608 515 3456".to_string(),
        email: "riverviewadventureco@gmail.com".to_string(),
        hours,
        appointment_only: true,
    };
    let social = SocialSettings {
        facebook_url: "https://www.facebook.com/riverviewadventureco/".to_string(),
        instagram_url: "https://www.instagram.com/riverviewadventureco/".to_string(),
        twitter_url: String::new(),
        youtube_url: String::new(),
        tiktok_url: String::new(),
    };
    let mut meta_keywords: Vec<String> = Vec::new();
    meta_keywords.push("Wisconsin River tubing".to_string());
    meta_keywords.push("Sauk City".to_string());
    meta_keywords.push("e-bike rentals".to_string());
    meta_keywords.push("Velotric dealer".to_string());
    meta_keywords.push("kayak rentals".to_string());
    meta_keywords.push("Great Sauk Trail".to_string());
    let seo = SeoSettings {
        meta_title: "Wisconsin River Tubing & E-Bike Rentals | Riverview Adventure Company".to_string(),
        meta_description: "Experience Wisconsin River tubing, kayak rentals, and Velotric e-bikes in Sauk City, WI. Located 20 minutes from Madison. Book your adventure today!".to_string(),
        meta_keywords,
        og_image_url: "/images/og-image.jpg".to_string(),
        google_analytics_id: String::new(),
    };
    let notifications = NotificationSettings {
        email_notifications: true,
        contact_form_email: "riverviewadventureco@gmail.com".to_string(),
        low_inventory_alerts: true,
        weather_alerts: true,
    };
    SiteSettings { general, appearance, business, social, seo, notifications }
    }
}

fn copy_social(s: &SocialSettings) -> (r: SocialSettings)
    ensures
        r == *s,
{
    SocialSettings {
        facebook_url: s.facebook_url.clone(),
        instagram_url: s.instagram_url.clone(),
        twitter_url: s.twitter_url.clone(),
        youtube_url: s.youtube_url.clone(),
        tiktok_url: s.tiktok_url.clone(),
    }
}

/// The postal address on one line: `street, city, state zip`.
pub open spec fn one_line_address(b: BusinessSettings) -> Seq<char> {
    b.address@ + ", "@ + b.city@ + ", "@ + b.state@ + " "@ + b.zip@
}

impl PublicSettings {
    /// The public subset of the settings, with the address on one line.
    pub fn from_settings(settings: &SiteSettings) -> (r: PublicSettings)
        ensures
            r.site_name == settings.general.site_name,
            r.tagline == settings.general.tagline,
            r.primary_color == settings.appearance.primary_color,
            r.secondary_color == settings.appearance.secondary_color,
            r.accent_color == settings.appearance.accent_color,
            r.logo_url == settings.appearance.logo_url,
            r.phone == settings.business.phone,
            r.email == settings.business.email,
            r.address@ == one_line_address(settings.business),
            r.social == settings.social,
    {
        let b = &settings.business;
        let address = b.address.clone().concat(", ").concat(b.city.as_str()).concat(", ").concat(
            b.state.as_str(),
        ).concat(" ").concat(b.zip.as_str());
        PublicSettings {
            site_name: settings.general.site_name.clone(),
            tagline: settings.general.tagline.clone(),
            primary_color: settings.appearance.primary_color.clone(),
            secondary_color: settings.appearance.secondary_color.clone(),
            accent_color: settings.appearance.accent_color.clone(),
            logo_url: settings.appearance.logo_url.clone(),
            phone: b.phone.clone(),
            email: b.email.clone(),
            address,
            social: copy_social(&settings.social),
        }
    }
}

} // verus!
