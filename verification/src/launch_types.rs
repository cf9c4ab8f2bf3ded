//! Data transfer objects mirroring the launch-listing API. The API is
//! treated as fully defensive: every field may be absent, and no invariant
//! ties one field to another. Values are decoded read-only at the fetch
//! edge and handed here as plain records.

use vstd::prelude::*;

verus! {

/// The top-level list response. The pagination fields (`count`,
/// `previous`, `next`) are decoded but never consulted; only `results` is
/// projected into the rendered list.
#[derive(Clone, Debug, PartialEq, Eq)]
pub struct LaunchListDto {
    pub count: Option<i32>,
    pub previous: Option<String>,
    pub next: Option<String>,
    pub results: Vec<Launch>,
}

/// A launch status entry: an identifier with human-readable names.
#[derive(Clone, Debug, PartialEq, Eq)]
pub struct LaunchStatus {
    pub id: Option<i64>,
    pub name: Option<String>,
    pub abbrev: Option<String>,
    pub description: Option<String>,
}

/// The agency or company operating a launch.
#[derive(Clone, Debug, PartialEq, Eq)]
pub struct ServiceProvider {
    pub id: Option<i32>,
    pub url: Option<String>,
    pub name: Option<String>,
    pub type_field: Option<String>,
}

/// A rocket configuration: the family and variant of a vehicle.
#[derive(Clone, Debug, PartialEq, Eq)]
pub struct RocketConfig {
    pub id: Option<i32>,
    pub url: Option<String>,
    pub name: Option<String>,
    pub family: Option<String>,
    pub full_name: Option<String>,
    pub variant: Option<String>,
}

/// A rocket: an identifier with its configuration.
#[derive(Clone, Debug, PartialEq, Eq)]
pub struct Rocket {
    pub id: Option<i32>,
    pub configuration: Option<RocketConfig>,
}

/// The orbit a mission aims for.
#[derive(Clone, Debug, PartialEq, Eq)]
pub struct Orbit {
    pub id: Option<i32>,
    pub name: Option<String>,
    pub abbrev: Option<String>,
}

/// A mission description, with its target orbit embedded.
#[derive(Clone, Debug, PartialEq, Eq)]
pub struct Mission {
    pub id: Option<i32>,
    pub name: Option<String>,
    pub description: Option<String>,
    pub launch_designator: Option<String>,
    pub type_field: Option<String>,
    pub orbit: Option<Orbit>,
}

/// The geographic location of a pad.
#[derive(Clone, Debug, PartialEq, Eq)]
pub struct Location {
    pub id: Option<i32>,
    pub url: Option<String>,
    pub name: Option<String>,
    pub country_code: Option<String>,
    pub map_image: Option<String>,
    pub timezone_name: Option<String>,
    pub total_launch_count: Option<i64>,
    pub total_landing_count: Option<i64>,
}

/// A launch pad, with its location embedded.
#[derive(Clone, Debug, PartialEq, Eq)]
pub struct Pad {
    pub id: Option<i32>,
    pub url: Option<String>,
    pub agency_id: Option<i64>,
    pub name: Option<String>,
    pub info_url: Option<String>,
    pub wiki_url: Option<String>,
    pub map_url: Option<String>,
    pub latitude: Option<String>,
    pub longitude: Option<String>,
    pub location: Option<Location>,
    pub country_code: Option<String>,
    pub map_image: Option<String>,
    pub total_launch_count: Option<i64>,
    pub orbital_launch_attempt_count: Option<i64>,
}

/// A program a launch belongs to, with its agencies and patches embedded.
#[derive(Clone, Debug, PartialEq, Eq)]
pub struct Program {
    pub id: Option<i32>,
    pub url: Option<String>,
    pub name: Option<String>,
    pub description: Option<String>,
    pub agencies: Option<Vec<Agency>>,
    pub image_url: Option<String>,
    pub start_date: Option<String>,
    pub end_date: Option<String>,
    pub info_url: Option<String>,
    pub wiki_url: Option<String>,
    pub mission_patches: Option<Vec<Patch>>,
}

/// A mission patch image.
#[derive(Clone, Debug, PartialEq, Eq)]
pub struct Patch {
    pub id: Option<i32>,
    pub name: Option<String>,
    pub priority: Option<i64>,
    pub image_url: Option<String>,
    pub agency: Option<Agency>,
}

/// An agency referenced by programs and patches.
#[derive(Clone, Debug, PartialEq, Eq)]
pub struct Agency {
    pub id: Option<i32>,
    pub url: Option<String>,
    pub name: Option<String>,
    pub type_field: Option<String>,
}

/// One launch of the list response. Related entities the API once
/// embedded (provider, rocket, mission, pad) are referenced by bare string
/// identifiers; every field may be absent.
#[derive(Clone, Debug, PartialEq, Eq)]
pub struct Launch {
    pub id: Option<String>,
    pub url: Option<String>,
    pub slug: Option<String>,
    pub name: Option<String>,
    pub status: Option<LaunchStatus>,
    pub last_updated: Option<String>,
    pub net: Option<String>,
    pub window_end: Option<String>,
    pub window_start: Option<String>,
    pub net_precision: Option<LaunchStatus>,
    pub probability: Option<i32>,
    pub weather_concerns: Option<String>,
    pub holdreason: Option<String>,
    pub failreason: Option<String>,
    pub hashtag: Option<String>,
    pub launch_service_provider: Option<String>,
    pub rocket: Option<String>,
    pub mission: Option<String>,
    pub pad: Option<String>,
    pub image: Option<String>,
    pub infographic: Option<String>,
    pub program: Option<Program>,
    pub orbital_launch_attempt_count: Option<i64>,
    pub location_launch_attempt_count: Option<i64>,
    pub pad_launch_attempt_count: Option<i64>,
    pub agency_launch_attempt_count: Option<i64>,
    pub orbital_launch_attempt_count_year: Option<i64>,
    pub location_launch_attempt_count_year: Option<i64>,
    pub pad_launch_attempt_count_year: Option<i64>,
    pub agency_launch_attempt_count_year: Option<i64>,
}

impl Launch {
    /// The launch with every field absent.
    pub open spec fn spec_absent() -> Launch {
        Launch {
            id: None,
            url: None,
            slug: None,
            name: None,
            status: None,
            last_updated: None,
            net: None,
            window_end: None,
            window_start: None,
            net_precision: None,
            probability: None,
            weather_concerns: None,
            holdreason: None,
            failreason: None,
            hashtag: None,
            launch_service_provider: None,
            rocket: None,
            mission: None,
            pad: None,
            image: None,
            infographic: None,
            program: None,
            orbital_launch_attempt_count: None,
            location_launch_attempt_count: None,
            pad_launch_attempt_count: None,
            agency_launch_attempt_count: None,
            orbital_launch_attempt_count_year: None,
            location_launch_attempt_count_year: None,
            pad_launch_attempt_count_year: None,
            agency_launch_attempt_count_year: None,
        }
    }
}

impl Default for Launch {
    /// A launch with every field absent, the base that decoders fill in.
    fn default() -> (l: Launch)
        ensures
            l == Launch::spec_absent(),
    {
        Launch {
            id: None,
            url: None,
            slug: None,
            name: None,
            status: None,
            last_updated: None,
            net: None,
            window_end: None,
            window_start: None,
            net_precision: None,
            probability: None,
            weather_concerns: None,
            holdreason: None,
            failreason: None,
            hashtag: None,
            launch_service_provider: None,
            rocket: None,
            mission: None,
            pad: None,
            image: None,
            infographic: None,
            program: None,
            orbital_launch_attempt_count: None,
            location_launch_attempt_count: None,
            pad_launch_attempt_count: None,
            agency_launch_attempt_count: None,
            orbital_launch_attempt_count_year: None,
            location_launch_attempt_count_year: None,
            pad_launch_attempt_count_year: None,
            agency_launch_attempt_count_year: None,
        }
    }
}

} // verus!
