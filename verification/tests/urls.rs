use flightradar_api::percent::decode_component;
use flightradar_api::resolver::check_token;
use flightradar_api::{BaseAddresses, Core, Endpoint, Parameter, ResolveError};

const WEB: &str = "https://www.flightradar24.com";

fn decoded(text: &str) -> String {
    String::from_utf8(decode_component(text).expect("decodable")).expect("utf-8")
}

#[test]
fn fixed_endpoints_are_exact() {
    assert_eq!(Core::user_login_url(), "https://www.flightradar24.com/user/login");
    assert_eq!(Core::user_logout_url(), "https://www.flightradar24.com/user/logout");
    assert_eq!(
        Core::real_time_flight_tracker_data_url(),
        "https://data-cloud.flightradar24.com/zones/fcgi/feed.js"
    );
    assert_eq!(
        Core::api_airport_data_url(),
        "https://api.flightradar24.com/common/v1/airport.json"
    );
    assert_eq!(Core::airports_data_url(), "https://www.flightradar24.com/_json/airports.php");
    assert_eq!(Core::airlines_data_url(), "https://www.flightradar24.com/_json/airlines.php");
    assert_eq!(Core::zones_data_url(), "https://www.flightradar24.com/js/zones.js.php");
    assert_eq!(
        Core::volcanic_eruption_data_url(),
        "https://www.flightradar24.com/weather/volcanic"
    );
    assert_eq!(Core::most_tracked_url(), "https://www.flightradar24.com/flights/most-tracked");
    assert_eq!(
        Core::airport_disruption_url(),
        "https://www.flightradar24.com/webapi/v1/airport-disruptions"
    );
    assert_eq!(Core::bookmarks_url(), "https://www.flightradar24.com/webapi/v1/bookmarks");
}

#[test]
fn search_example_with_non_ascii_and_space() {
    assert_eq!(
        Core::search_data_url("São Paulo", 5),
        "https://www.flightradar24.com/v1/search/web/find?query=S%C3%A3o%20Paulo&limit=5"
    );
}

#[test]
fn search_escapes_delimiters() {
    assert_eq!(
        Core::search_data_url("a&b=c#d?e/f%g+h", 10),
        "https://www.flightradar24.com/v1/search/web/find?query=a%26b%3Dc%23d%3Fe%2Ff%25g%2Bh&limit=10"
    );
}

#[test]
fn search_keeps_unreserved_characters() {
    assert_eq!(
        Core::search_data_url("AZaz09-._~", 1),
        "https://www.flightradar24.com/v1/search/web/find?query=AZaz09-._~&limit=1"
    );
}

#[test]
fn search_with_empty_query_and_zero_limit() {
    assert_eq!(
        Core::search_data_url("", 0),
        "https://www.flightradar24.com/v1/search/web/find?query=&limit=0"
    );
}

#[test]
fn search_renders_the_largest_limit() {
    let url = Core::search_data_url("x", usize::MAX);
    assert_eq!(
        url,
        format!("https://www.flightradar24.com/v1/search/web/find?query=x&limit={}", usize::MAX)
    );
}

#[test]
fn search_query_round_trips() {
    let queries = [
        "São Paulo",
        "a b&c",
        "100% sure?",
        "東京 / 成田",
        "tab\tnew\nline",
        "\u{0}\u{7f}\u{80}\u{10ffff}",
        "",
        "plain",
    ];
    for q in queries {
        for limit in [0usize, 7, 10, 99, 100, 12345] {
            let url = Core::search_data_url(q, limit);
            let head = format!("{}/v1/search/web/find?query=", WEB);
            assert!(url.starts_with(&head));
            let rest = &url[head.len()..];
            let (value, tail) = rest.split_once('&').expect("limit follows");
            assert!(value.bytes().all(|b| b.is_ascii_alphanumeric() || b"-._~%".contains(&b)));
            assert_eq!(decoded(value), q);
            assert_eq!(tail, format!("limit={}", limit));
        }
    }
}

#[test]
fn flight_detail_url() {
    assert_eq!(
        Core::flight_data_url("2f3a1b4c"),
        Ok("https://data-live.flightradar24.com/clickhandler/?flight=2f3a1b4c".to_string())
    );
}

#[test]
fn flight_detail_refuses_control_character() {
    assert_eq!(
        Core::flight_data_url("2f3a\u{1}b4c"),
        Err(ResolveError::MalformedParameter(Parameter::Flight))
    );
}

#[test]
fn flight_detail_refuses_delimiters_space_and_non_ascii() {
    for bad in ["a&b", "a b", "a#b", "a/b", "a?b", "a=b", "a%20b", "é", "a\n"] {
        assert_eq!(
            Core::flight_data_url(bad),
            Err(ResolveError::MalformedParameter(Parameter::Flight)),
            "{:?}",
            bad
        );
    }
}

#[test]
fn historical_data_url_with_and_without_history() {
    assert_eq!(
        Core::historical_data_url("2f3a1b4c", "csv", true),
        Ok("https://www.flightradar24.com/download/?flight=2f3a1b4c&file=csv&trailLimit=0&history=true".to_string())
    );
    assert_eq!(
        Core::historical_data_url("2f3a1b4c", "kml", false),
        Ok("https://www.flightradar24.com/download/?flight=2f3a1b4c&file=kml&trailLimit=0&history=false".to_string())
    );
}

#[test]
fn historical_data_url_always_asks_for_whole_trail() {
    for flight in ["", "a", "2f3a1b4c", "trailLimit"] {
        for file in ["", "csv", "kml", "x.y_z~0"] {
            for history in [true, false] {
                let url = Core::historical_data_url(flight, file, history).expect("valid");
                assert!(url.contains("trailLimit=0"));
                let word = if history { "true" } else { "false" };
                assert!(url.ends_with(&format!("&history={}", word)));
            }
        }
    }
}

#[test]
fn historical_data_url_names_the_first_malformed_parameter() {
    assert_eq!(
        Core::historical_data_url("bad id", "csv", true),
        Err(ResolveError::MalformedParameter(Parameter::Flight))
    );
    assert_eq!(
        Core::historical_data_url("2f3a1b4c", "c&sv", true),
        Err(ResolveError::MalformedParameter(Parameter::File))
    );
    assert_eq!(
        Core::historical_data_url("bad id", "c&sv", false),
        Err(ResolveError::MalformedParameter(Parameter::Flight))
    );
}

#[test]
fn airport_traffic_stats_url() {
    assert_eq!(
        Core::airport_data_url("GRU"),
        Ok("https://www.flightradar24.com/airports/traffic-stats/?airport=GRU".to_string())
    );
    assert_eq!(
        Core::airport_data_url("G RU"),
        Err(ResolveError::MalformedParameter(Parameter::Airport))
    );
}

#[test]
fn country_flag_url() {
    for country in ["brazil", "united-states", "fr", ""] {
        assert_eq!(
            Core::country_flag_url(country),
            Ok(format!("{}/static/images/data/flags-small/{}.svg", WEB, country))
        );
    }
    assert_eq!(
        Core::country_flag_url("../secret"),
        Err(ResolveError::MalformedParameter(Parameter::Country))
    );
}

#[test]
fn airline_logo_urls() {
    assert_eq!(
        Core::airline_logo_url("LA", "LAN"),
        Ok("https://cdn.flightradar24.com/assets/airlines/logotypes/LA_LAN.png".to_string())
    );
    assert_eq!(
        Core::alternative_airline_logo_url("LAN"),
        Ok("https://www.flightradar24.com/static/images/data/operators/LAN_logo0.png".to_string())
    );
}

#[test]
fn airline_logo_refuses_malformed_codes() {
    assert_eq!(
        Core::airline_logo_url("L/A", "LAN"),
        Err(ResolveError::MalformedParameter(Parameter::Iata))
    );
    assert_eq!(
        Core::airline_logo_url("LA", "L N"),
        Err(ResolveError::MalformedParameter(Parameter::Icao))
    );
    assert_eq!(
        Core::airline_logo_url("L/A", "L N"),
        Err(ResolveError::MalformedParameter(Parameter::Iata))
    );
    assert_eq!(
        Core::alternative_airline_logo_url("LAN\u{7f}"),
        Err(ResolveError::MalformedParameter(Parameter::Icao))
    );
}

#[test]
fn resolver_uses_the_given_bases() {
    let bases = BaseAddresses {
        api: "http://api.test/v9",
        cdn: "http://cdn.test",
        web: "http://web.test",
        data_live: "http://live.test",
        data_cloud: "http://cloud.test",
    };
    let cases: Vec<(Endpoint, &str)> = vec![
        (Endpoint::UserLogin, "http://web.test/user/login"),
        (Endpoint::UserLogout, "http://web.test/user/logout"),
        (
            Endpoint::Search { query: "São Paulo", limit: 5 },
            "http://web.test/v1/search/web/find?query=S%C3%A3o%20Paulo&limit=5",
        ),
        (Endpoint::RealTimeFlightTracker, "http://cloud.test/zones/fcgi/feed.js"),
        (Endpoint::FlightDetail { flight: "abc" }, "http://live.test/clickhandler/?flight=abc"),
        (
            Endpoint::HistoricalData { flight: "abc", file: "csv", history: true },
            "http://web.test/download/?flight=abc&file=csv&trailLimit=0&history=true",
        ),
        (Endpoint::ApiAirportList, "http://api.test/v9/airport.json"),
        (
            Endpoint::AirportTrafficStats { airport: "GRU" },
            "http://web.test/airports/traffic-stats/?airport=GRU",
        ),
        (Endpoint::AirportList, "http://web.test/_json/airports.php"),
        (Endpoint::AirlineList, "http://web.test/_json/airlines.php"),
        (Endpoint::ZoneList, "http://web.test/js/zones.js.php"),
        (Endpoint::VolcanicEruptions, "http://web.test/weather/volcanic"),
        (Endpoint::MostTracked, "http://web.test/flights/most-tracked"),
        (Endpoint::AirportDisruptions, "http://web.test/webapi/v1/airport-disruptions"),
        (Endpoint::Bookmarks, "http://web.test/webapi/v1/bookmarks"),
        (
            Endpoint::CountryFlag { country: "brazil" },
            "http://web.test/static/images/data/flags-small/brazil.svg",
        ),
        (
            Endpoint::AirlineLogo { iata: "LA", icao: "LAN" },
            "http://cdn.test/assets/airlines/logotypes/LA_LAN.png",
        ),
        (
            Endpoint::AlternativeAirlineLogo { icao: "LAN" },
            "http://web.test/static/images/data/operators/LAN_logo0.png",
        ),
    ];
    for (endpoint, expected) in cases {
        assert_eq!(endpoint.validate(), None);
        assert_eq!(endpoint.resolve(&bases), Ok(expected.to_string()));
    }
}

#[test]
fn resolver_with_standard_bases_agrees_with_named_functions() {
    let bases = BaseAddresses::standard();
    assert_eq!(bases.api, "https://api.flightradar24.com/common/v1");
    assert_eq!(bases.cdn, "https://cdn.flightradar24.com");
    assert_eq!(bases.web, "https://www.flightradar24.com");
    assert_eq!(bases.data_live, "https://data-live.flightradar24.com");
    assert_eq!(bases.data_cloud, "https://data-cloud.flightradar24.com");
    assert_eq!(Endpoint::MostTracked.resolve(&bases), Ok(Core::most_tracked_url()));
    assert_eq!(
        Endpoint::Search { query: "a b", limit: 3 }.resolve(&bases),
        Ok(Core::search_data_url("a b", 3))
    );
    assert_eq!(Endpoint::CountryFlag { country: "fr" }.resolve(&bases), Core::country_flag_url("fr"));
}

#[test]
fn resolver_refuses_before_writing() {
    let bases = BaseAddresses::standard();
    let endpoint = Endpoint::HistoricalData { flight: "ok", file: "no good", history: true };
    assert_eq!(endpoint.validate(), Some(Parameter::File));
    assert_eq!(endpoint.resolve(&bases), Err(ResolveError::MalformedParameter(Parameter::File)));
}

#[test]
fn resolving_twice_gives_equal_and_separate_strings() {
    let mut first = Core::flight_data_url("abc").expect("valid");
    let second = Core::flight_data_url("abc").expect("valid");
    assert_eq!(first, second);
    first.push('!');
    assert_ne!(first, second);
    assert_eq!(second, "https://data-live.flightradar24.com/clickhandler/?flight=abc");
}

#[test]
fn tokens_are_unreserved_text() {
    assert!(check_token(""));
    assert!(check_token("AZaz09-._~"));
    assert!(!check_token(" "));
    assert!(!check_token("a%41"));
    assert!(!check_token("ã"));
    assert!(!check_token("a\u{0}"));
    assert!(!check_token("@"));
    assert!(!check_token("["));
    assert!(!check_token("`"));
    assert!(!check_token("{"));
    assert!(!check_token("/"));
    assert!(!check_token(":"));
}
