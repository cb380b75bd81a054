//! The production service's endpoints and header profiles by name.

use crate::decimal::decimal;
use crate::headers::{header_fields, header_profile, profile_fields, ProfileKind};
use crate::percent::encoded_text;
use crate::resolver::{
    bool_text, is_token, BaseAddresses, Endpoint, Parameter, ResolveError, API_BASE, CDN_BASE,
    DATA_CLOUD_BASE, DATA_LIVE_BASE, WEB_BASE,
};
use reqwest::header::HeaderMap;
use vstd::prelude::*;

verus! {

/// The URLs and header sets of the production service. Every function
/// returns a value of its own; none reads or keeps any state.
pub struct Core;

impl Core {
    /// Where a user logs in.
    pub fn user_login_url() -> (url: String)
        ensures
            url@ == WEB_BASE@ + "/user/login"@,
    {
        Endpoint::UserLogin.render(&BaseAddresses::standard())
    }

    /// Where a user logs out.
    pub fn user_logout_url() -> (url: String)
        ensures
            url@ == WEB_BASE@ + "/user/logout"@,
    {
        Endpoint::UserLogout.render(&BaseAddresses::standard())
    }

    /// The search for `query`, with at most `limit` results. The query may
    /// hold any text: it is percent-encoded.
    pub fn search_data_url(query: &str, limit: usize) -> (url: String)
        ensures
            url@ == WEB_BASE@ + "/v1/search/web/find?query="@ + encoded_text(query@) + "&limit="@
                + decimal(limit as nat),
    {
        Endpoint::Search { query, limit }.render(&BaseAddresses::standard())
    }

    /// The feed of flights in the air.
    pub fn real_time_flight_tracker_data_url() -> (url: String)
        ensures
            url@ == DATA_CLOUD_BASE@ + "/zones/fcgi/feed.js"@,
    {
        Endpoint::RealTimeFlightTracker.render(&BaseAddresses::standard())
    }

    /// The details of one flight.
    pub fn flight_data_url(flight: &str) -> (r: Result<String, ResolveError>)
        ensures
            match r {
                Ok(url) => is_token(flight@) && url@ == DATA_LIVE_BASE@
                    + "/clickhandler/?flight="@ + flight@,
                Err(e) => !is_token(flight@) && e == ResolveError::MalformedParameter(
                    Parameter::Flight,
                ),
            },
    {
        Endpoint::FlightDetail { flight }.resolve(&BaseAddresses::standard())
    }

    /// The recorded data of one flight, as the file kind `file`, with or
    /// without its history.
    pub fn historical_data_url(flight: &str, file: &str, history: bool) -> (r: Result<
        String,
        ResolveError,
    >)
        ensures
            match r {
                Ok(url) => is_token(flight@) && is_token(file@) && url@ == WEB_BASE@
                    + "/download/?flight="@ + flight@ + "&file="@ + file@
                    + "&trailLimit=0&history="@ + bool_text(history),
                Err(e) => if !is_token(flight@) {
                    e == ResolveError::MalformedParameter(Parameter::Flight)
                } else {
                    !is_token(file@) && e == ResolveError::MalformedParameter(Parameter::File)
                },
            },
    {
        Endpoint::HistoricalData { flight, file, history }.resolve(&BaseAddresses::standard())
    }

    /// The airport list of the common API.
    pub fn api_airport_data_url() -> (url: String)
        ensures
            url@ == API_BASE@ + "/airport.json"@,
    {
        Endpoint::ApiAirportList.render(&BaseAddresses::standard())
    }

    /// The traffic statistics of one airport.
    pub fn airport_data_url(airport: &str) -> (r: Result<String, ResolveError>)
        ensures
            match r {
                Ok(url) => is_token(airport@) && url@ == WEB_BASE@
                    + "/airports/traffic-stats/?airport="@ + airport@,
                Err(e) => !is_token(airport@) && e == ResolveError::MalformedParameter(
                    Parameter::Airport,
                ),
            },
    {
        Endpoint::AirportTrafficStats { airport }.resolve(&BaseAddresses::standard())
    }

    /// The list of all airports.
    pub fn airports_data_url() -> (url: String)
        ensures
            url@ == WEB_BASE@ + "/_json/airports.php"@,
    {
        Endpoint::AirportList.render(&BaseAddresses::standard())
    }

    /// The list of all airlines.
    pub fn airlines_data_url() -> (url: String)
        ensures
            url@ == WEB_BASE@ + "/_json/airlines.php"@,
    {
        Endpoint::AirlineList.render(&BaseAddresses::standard())
    }

    /// The list of map zones.
    pub fn zones_data_url() -> (url: String)
        ensures
            url@ == WEB_BASE@ + "/js/zones.js.php"@,
    {
        Endpoint::ZoneList.render(&BaseAddresses::standard())
    }

    /// The volcanic eruption notices.
    pub fn volcanic_eruption_data_url() -> (url: String)
        ensures
            url@ == WEB_BASE@ + "/weather/volcanic"@,
    {
        Endpoint::VolcanicEruptions.render(&BaseAddresses::standard())
    }

    /// The most tracked flights.
    pub fn most_tracked_url() -> (url: String)
        ensures
            url@ == WEB_BASE@ + "/flights/most-tracked"@,
    {
        Endpoint::MostTracked.render(&BaseAddresses::standard())
    }

    /// The airport disruption notices.
    pub fn airport_disruption_url() -> (url: String)
        ensures
            url@ == WEB_BASE@ + "/webapi/v1/airport-disruptions"@,
    {
        Endpoint::AirportDisruptions.render(&BaseAddresses::standard())
    }

    /// The bookmarks of the user who is logged in.
    pub fn bookmarks_url() -> (url: String)
        ensures
            url@ == WEB_BASE@ + "/webapi/v1/bookmarks"@,
    {
        Endpoint::Bookmarks.render(&BaseAddresses::standard())
    }

    /// The flag image of a country.
    pub fn country_flag_url(country: &str) -> (r: Result<String, ResolveError>)
        ensures
            match r {
                Ok(url) => is_token(country@) && url@ == WEB_BASE@
                    + "/static/images/data/flags-small/"@ + country@ + ".svg"@,
                Err(e) => !is_token(country@) && e == ResolveError::MalformedParameter(
                    Parameter::Country,
                ),
            },
    {
        Endpoint::CountryFlag { country }.resolve(&BaseAddresses::standard())
    }

    /// The logo of an airline, by both of its codes.
    pub fn airline_logo_url(iata: &str, icao: &str) -> (r: Result<String, ResolveError>)
        ensures
            match r {
                Ok(url) => is_token(iata@) && is_token(icao@) && url@ == CDN_BASE@
                    + "/assets/airlines/logotypes/"@ + iata@ + "_"@ + icao@ + ".png"@,
                Err(e) => if !is_token(iata@) {
                    e == ResolveError::MalformedParameter(Parameter::Iata)
                } else {
                    !is_token(icao@) && e == ResolveError::MalformedParameter(Parameter::Icao)
                },
            },
    {
        Endpoint::AirlineLogo { iata, icao }.resolve(&BaseAddresses::standard())
    }

    /// The logo of an airline from the web site, by its ICAO code alone.
    pub fn alternative_airline_logo_url(icao: &str) -> (r: Result<String, ResolveError>)
        ensures
            match r {
                Ok(url) => is_token(icao@) && url@ == WEB_BASE@
                    + "/static/images/data/operators/"@ + icao@ + "_logo0.png"@,
                Err(e) => !is_token(icao@) && e == ResolveError::MalformedParameter(
                    Parameter::Icao,
                ),
            },
    {
        Endpoint::AlternativeAirlineLogo { icao }.resolve(&BaseAddresses::standard())
    }

    /// The headers shared by every request.
    pub fn default_headers() -> (m: HeaderMap)
        ensures
            header_fields(m) == profile_fields(ProfileKind::Base),
    {
        header_profile(ProfileKind::Base)
    }

    /// The headers of a request that expects JSON.
    pub fn json_headers() -> (m: HeaderMap)
        ensures
            header_fields(m) == profile_fields(ProfileKind::Json),
    {
        header_profile(ProfileKind::Json)
    }

    /// The headers of a request that expects an image.
    pub fn image_headers() -> (m: HeaderMap)
        ensures
            header_fields(m) == profile_fields(ProfileKind::Image),
    {
        header_profile(ProfileKind::Image)
    }
}

} // verus!
