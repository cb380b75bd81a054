//! The endpoint resolver: from a logical request to the URL that serves it.

use crate::decimal::{
    decimal, decimal_value, is_digits, lemma_decimal_round_trip, lemma_decimal_shape,
    push_decimal,
};
use crate::percent::{
    encoded_text, is_encoded_text, is_unreserved, is_unreserved_byte, lemma_decode_encode,
    lemma_encoded_is_plain, percent_decoded, push_encoded,
};
use vstd::prelude::*;
use vstd::utf8::{decode_utf8, encode_utf8, valid_utf8};

verus! {

/// Base address of the service's common API.
pub const API_BASE: &'static str = "https://api.flightradar24.com/common/v1";

/// Base address of the content delivery network.
pub const CDN_BASE: &'static str = "https://cdn.flightradar24.com";

/// Base address of the web site.
pub const WEB_BASE: &'static str = "https://www.flightradar24.com";

/// Base address of the live-data subsystem.
pub const DATA_LIVE_BASE: &'static str = "https://data-live.flightradar24.com";

/// Base address of the cloud-data subsystem.
pub const DATA_CLOUD_BASE: &'static str = "https://data-cloud.flightradar24.com";

/// The base addresses of the service's subsystems, one scheme-and-host prefix
/// each. A resolver reads them and never changes them.
#[derive(Clone, Copy, Debug)]
pub struct BaseAddresses<'a> {
    pub api: &'a str,
    pub cdn: &'a str,
    pub web: &'a str,
    pub data_live: &'a str,
    pub data_cloud: &'a str,
}

impl BaseAddresses<'static> {
    /// The addresses of the production service.
    pub fn standard() -> (bases: Self)
        ensures
            bases.api@ == API_BASE@,
            bases.cdn@ == CDN_BASE@,
            bases.web@ == WEB_BASE@,
            bases.data_live@ == DATA_LIVE_BASE@,
            bases.data_cloud@ == DATA_CLOUD_BASE@,
            bases.well_formed(),
    {
        let bases = BaseAddresses {
            api: API_BASE,
            cdn: CDN_BASE,
            web: WEB_BASE,
            data_live: DATA_LIVE_BASE,
            data_cloud: DATA_CLOUD_BASE,
        };
        proof {
            lemma_standard_bases_well_formed(bases);
        }
        bases
    }
}

/// The caller-supplied parameters that are copied into a URL as they are.
#[derive(Clone, Copy, Debug, PartialEq, Eq, Structural)]
pub enum Parameter {
    Flight,
    File,
    Airport,
    Country,
    Iata,
    Icao,
}

/// Why an endpoint could not be resolved.
#[derive(Clone, Copy, Debug, PartialEq, Eq, Structural)]
pub enum ResolveError {
    /// The named parameter holds a character that cannot stand in a URL as
    /// it is.
    MalformedParameter(Parameter),
}

/// One kind of request, with the parameters that it needs.
#[derive(Clone, Copy, Debug)]
pub enum Endpoint<'a> {
    UserLogin,
    UserLogout,
    Search { query: &'a str, limit: usize },
    RealTimeFlightTracker,
    FlightDetail { flight: &'a str },
    HistoricalData { flight: &'a str, file: &'a str, history: bool },
    ApiAirportList,
    AirportTrafficStats { airport: &'a str },
    AirportList,
    AirlineList,
    ZoneList,
    VolcanicEruptions,
    MostTracked,
    AirportDisruptions,
    Bookmarks,
    CountryFlag { country: &'a str },
    AirlineLogo { iata: &'a str, icao: &'a str },
    AlternativeAirlineLogo { icao: &'a str },
}

/// Whether a text can be copied into a URL as it is: every character is an
/// unreserved one, so the text neither ends the component it is put in nor
/// needs escaping.
pub open spec fn is_token(text: Seq<char>) -> bool {
    forall|i: int| 0 <= i < text.len() ==> is_unreserved(#[trigger] text[i])
}

/// How a boolean is written in a query string.
pub open spec fn bool_text(b: bool) -> Seq<char> {
    if b {
        "true"@
    } else {
        "false"@
    }
}

/// Tells whether a text can be copied into a URL as it is.
pub fn check_token(text: &str) -> (ok: bool)
    ensures
        ok == is_token(text@),
{
    if !text.is_ascii() {
        return false;
    }
    let bytes = text.as_bytes();
    proof {
        vstd::string::is_ascii_spec_bytes(text);
    }
    let mut i: usize = 0;
    while i < bytes.len()
        invariant
            i <= bytes.len(),
            bytes@.len() == text@.len(),
            forall|k: int| 0 <= k < text@.len() ==> #[trigger] bytes@[k] as char == text@[k],
            forall|k: int| 0 <= k < i ==> is_unreserved(#[trigger] text@[k]),
        decreases bytes.len() - i,
    {
        if !is_unreserved_byte(bytes[i]) {
            assert(!is_unreserved(text@[i as int]));
            return false;
        }
        i += 1;
    }
    true
}

/// The text `base` followed by `path`.
fn joined(base: &str, path: &str) -> (url: String)
    ensures
        url@ == base@ + path@,
{
    let mut url = String::new();
    url.append(base);
    url.append(path);
    assert(url@ =~= base@ + path@);
    url
}

impl<'a> Endpoint<'a> {
    /// The first parameter, in the order in which the URL holds them, that
    /// cannot be copied into a URL as it is; `None` where there is no such
    /// parameter. A search query is never malformed: it is escaped instead.
    pub open spec fn malformed(&self) -> Option<Parameter> {
        match *self {
            Endpoint::FlightDetail { flight } => if !is_token(flight@) {
                Some(Parameter::Flight)
            } else {
                None
            },
            Endpoint::HistoricalData { flight, file, history } => if !is_token(flight@) {
                Some(Parameter::Flight)
            } else if !is_token(file@) {
                Some(Parameter::File)
            } else {
                None
            },
            Endpoint::AirportTrafficStats { airport } => if !is_token(airport@) {
                Some(Parameter::Airport)
            } else {
                None
            },
            Endpoint::CountryFlag { country } => if !is_token(country@) {
                Some(Parameter::Country)
            } else {
                None
            },
            Endpoint::AirlineLogo { iata, icao } => if !is_token(iata@) {
                Some(Parameter::Iata)
            } else if !is_token(icao@) {
                Some(Parameter::Icao)
            } else {
                None
            },
            Endpoint::AlternativeAirlineLogo { icao } => if !is_token(icao@) {
                Some(Parameter::Icao)
            } else {
                None
            },
            _ => None,
        }
    }

    /// The URL of this endpoint against the given base addresses: the base
    /// of the subsystem that serves it, the fixed path, and the parameters
    /// in their places.
    pub open spec fn url(&self, bases: BaseAddresses) -> Seq<char> {
        match *self {
            Endpoint::UserLogin => bases.web@ + "/user/login"@,
            Endpoint::UserLogout => bases.web@ + "/user/logout"@,
            Endpoint::Search { query, limit } => bases.web@ + "/v1/search/web/find?query="@
                + encoded_text(query@) + "&limit="@ + decimal(limit as nat),
            Endpoint::RealTimeFlightTracker => bases.data_cloud@ + "/zones/fcgi/feed.js"@,
            Endpoint::FlightDetail { flight } => bases.data_live@ + "/clickhandler/?flight="@
                + flight@,
            Endpoint::HistoricalData { flight, file, history } => bases.web@
                + "/download/?flight="@ + flight@ + "&file="@ + file@
                + "&trailLimit=0&history="@ + bool_text(history),
            Endpoint::ApiAirportList => bases.api@ + "/airport.json"@,
            Endpoint::AirportTrafficStats { airport } => bases.web@
                + "/airports/traffic-stats/?airport="@ + airport@,
            Endpoint::AirportList => bases.web@ + "/_json/airports.php"@,
            Endpoint::AirlineList => bases.web@ + "/_json/airlines.php"@,
            Endpoint::ZoneList => bases.web@ + "/js/zones.js.php"@,
            Endpoint::VolcanicEruptions => bases.web@ + "/weather/volcanic"@,
            Endpoint::MostTracked => bases.web@ + "/flights/most-tracked"@,
            Endpoint::AirportDisruptions => bases.web@ + "/webapi/v1/airport-disruptions"@,
            Endpoint::Bookmarks => bases.web@ + "/webapi/v1/bookmarks"@,
            Endpoint::CountryFlag { country } => bases.web@
                + "/static/images/data/flags-small/"@ + country@ + ".svg"@,
            Endpoint::AirlineLogo { iata, icao } => bases.cdn@ + "/assets/airlines/logotypes/"@
                + iata@ + "_"@ + icao@ + ".png"@,
            Endpoint::AlternativeAirlineLogo { icao } => bases.web@
                + "/static/images/data/operators/"@ + icao@ + "_logo0.png"@,
        }
    }

    /// Finds the first malformed parameter, if there is one.
    pub fn validate(&self) -> (found: Option<Parameter>)
        ensures
            found == self.malformed(),
    {
        match *self {
            Endpoint::FlightDetail { flight } => {
                if !check_token(flight) {
                    Some(Parameter::Flight)
                } else {
                    None
                }
            },
            Endpoint::HistoricalData { flight, file, history: _ } => {
                if !check_token(flight) {
                    Some(Parameter::Flight)
                } else if !check_token(file) {
                    Some(Parameter::File)
                } else {
                    None
                }
            },
            Endpoint::AirportTrafficStats { airport } => {
                if !check_token(airport) {
                    Some(Parameter::Airport)
                } else {
                    None
                }
            },
            Endpoint::CountryFlag { country } => {
                if !check_token(country) {
                    Some(Parameter::Country)
                } else {
                    None
                }
            },
            Endpoint::AirlineLogo { iata, icao } => {
                if !check_token(iata) {
                    Some(Parameter::Iata)
                } else if !check_token(icao) {
                    Some(Parameter::Icao)
                } else {
                    None
                }
            },
            Endpoint::AlternativeAirlineLogo { icao } => {
                if !check_token(icao) {
                    Some(Parameter::Icao)
                } else {
                    None
                }
            },
            _ => None,
        }
    }

    /// Writes the URL out, whatever the parameters hold.
    pub(crate) fn render(&self, bases: &BaseAddresses) -> (url: String)
        ensures
            url@ == self.url(*bases),
    {
        match *self {
            Endpoint::UserLogin => joined(bases.web, "/user/login"),
            Endpoint::UserLogout => joined(bases.web, "/user/logout"),
            Endpoint::Search { query, limit } => {
                let mut url = joined(bases.web, "/v1/search/web/find?query=");
                push_encoded(&mut url, query.as_bytes());
                url.append("&limit=");
                push_decimal(&mut url, limit);
                url
            },
            Endpoint::RealTimeFlightTracker => joined(bases.data_cloud, "/zones/fcgi/feed.js"),
            Endpoint::FlightDetail { flight } => {
                let mut url = joined(bases.data_live, "/clickhandler/?flight=");
                url.append(flight);
                url
            },
            Endpoint::HistoricalData { flight, file, history } => {
                let mut url = joined(bases.web, "/download/?flight=");
                url.append(flight);
                url.append("&file=");
                url.append(file);
                url.append("&trailLimit=0&history=");
                if history {
                    url.append("true");
                } else {
                    url.append("false");
                }
                url
            },
            Endpoint::ApiAirportList => joined(bases.api, "/airport.json"),
            Endpoint::AirportTrafficStats { airport } => {
                let mut url = joined(bases.web, "/airports/traffic-stats/?airport=");
                url.append(airport);
                url
            },
            Endpoint::AirportList => joined(bases.web, "/_json/airports.php"),
            Endpoint::AirlineList => joined(bases.web, "/_json/airlines.php"),
            Endpoint::ZoneList => joined(bases.web, "/js/zones.js.php"),
            Endpoint::VolcanicEruptions => joined(bases.web, "/weather/volcanic"),
            Endpoint::MostTracked => joined(bases.web, "/flights/most-tracked"),
            Endpoint::AirportDisruptions => joined(bases.web, "/webapi/v1/airport-disruptions"),
            Endpoint::Bookmarks => joined(bases.web, "/webapi/v1/bookmarks"),
            Endpoint::CountryFlag { country } => {
                let mut url = joined(bases.web, "/static/images/data/flags-small/");
                url.append(country);
                url.append(".svg");
                url
            },
            Endpoint::AirlineLogo { iata, icao } => {
                let mut url = joined(bases.cdn, "/assets/airlines/logotypes/");
                url.append(iata);
                url.append("_");
                url.append(icao);
                url.append(".png");
                url
            },
            Endpoint::AlternativeAirlineLogo { icao } => {
                let mut url = joined(bases.web, "/static/images/data/operators/");
                url.append(icao);
                url.append("_logo0.png");
                url
            },
        }
    }

    /// Resolves the endpoint to its URL. A parameter that cannot be copied
    /// into a URL as it is is refused before any text is produced; otherwise
    /// resolution succeeds.
    pub fn resolve(&self, bases: &BaseAddresses) -> (r: Result<String, ResolveError>)
        ensures
            match r {
                Ok(url) => self.malformed() is None && url@ == self.url(*bases),
                Err(e) => self.malformed() == Some(e->0),
            },
    {
        match self.validate() {
            Some(parameter) => Err(ResolveError::MalformedParameter(parameter)),
            None => Ok(self.render(bases)),
        }
    }
}

/// The value that starts at position `from` of a URL's query: the text from
/// there up to the next `&` or `#`, or to the end of the URL.
pub open spec fn value_at(url: Seq<char>, from: int) -> Seq<char>
    decreases url.len() - from,
{
    if from < 0 || from >= url.len() || url[from] == '&' || url[from] == '#' {
        Seq::empty()
    } else {
        seq![url[from]] + value_at(url, from + 1)
    }
}

/// The text that a percent-encoded value stands for, where it stands for
/// one: its decoded bytes read as UTF-8.
pub open spec fn decoded_text(value: Seq<char>) -> Option<Seq<char>> {
    match percent_decoded(value) {
        Some(bytes) => if valid_utf8(bytes) {
            Some(decode_utf8(bytes))
        } else {
            None
        },
        None => None,
    }
}

/// Whether `part` occurs in `text` as a run of consecutive characters.
pub open spec fn contains_text(text: Seq<char>, part: Seq<char>) -> bool {
    exists|at: int|
        0 <= at && at + part.len() <= text.len() && #[trigger] text.subrange(
            at,
            at + part.len(),
        ) == part
}

/// Whether `text` ends with `part`.
pub open spec fn ends_with(text: Seq<char>, part: Seq<char>) -> bool {
    part.len() <= text.len() && text.subrange(text.len() - part.len(), text.len() as int) == part
}

/// A value without `&` and `#`, put behind a prefix and followed by nothing
/// or by text that starts with one of the two, is read back whole.
pub proof fn lemma_value_at(prefix: Seq<char>, value: Seq<char>, rest: Seq<char>, skipped: int)
    requires
        0 <= skipped <= value.len(),
        forall|i: int| 0 <= i < value.len() ==> value[i] != '&' && value[i] != '#',
        rest.len() == 0 || rest[0] == '&' || rest[0] == '#',
    ensures
        value_at(prefix + value + rest, prefix.len() + skipped) == value.skip(skipped),
    decreases value.len() - skipped,
{
    let url = prefix + value + rest;
    let from = prefix.len() + skipped;
    if skipped == value.len() {
        if rest.len() > 0 {
            assert(url[from] == rest[0]);
        }
        assert(value.skip(skipped) =~= Seq::<char>::empty());
    } else {
        lemma_value_at(prefix, value, rest, skipped + 1);
        assert(url[from] == value[skipped]);
        assert(seq![value[skipped]] + value.skip(skipped + 1) =~= value.skip(skipped));
    }
}

/// The query of a search URL reads back as what was searched for: the value
/// that follows `query=` is the percent-encoding of the query, holds nothing
/// but unreserved characters and `%`, and decodes to exactly the query; the
/// value that follows `limit=` is the limit in plain decimal.
pub proof fn lemma_search_url_round_trip(bases: BaseAddresses, query: &str, limit: usize)
    ensures
        ({
            let url = (Endpoint::Search { query, limit }).url(bases);
            let query_at = bases.web@.len() + "/v1/search/web/find?query="@.len();
            let limit_at = query_at + encoded_text(query@).len() + "&limit="@.len();
            &&& value_at(url, query_at as int) == encoded_text(query@)
            &&& is_encoded_text(encoded_text(query@))
            &&& decoded_text(encoded_text(query@)) == Some(query@)
            &&& value_at(url, limit_at as int) == decimal(limit as nat)
            &&& is_digits(decimal(limit as nat))
            &&& decimal_value(decimal(limit as nat)) == Some(limit as nat)
        }),
{
    let url = (Endpoint::Search { query, limit }).url(bases);
    let head = bases.web@ + "/v1/search/web/find?query="@;
    let value = encoded_text(query@);
    let digits = decimal(limit as nat);
    reveal_strlit("&limit=");
    lemma_encoded_is_plain(encode_utf8(query@));
    lemma_decode_encode(encode_utf8(query@));
    vstd::utf8::encode_utf8_valid_utf8(query@);
    vstd::utf8::encode_utf8_decode_utf8(query@);
    lemma_decimal_shape(limit as nat);
    lemma_decimal_round_trip(limit as nat);

    let tail = "&limit="@ + digits;
    assert(url =~= head + value + tail);
    assert(tail[0] == '&');
    lemma_value_at(head, value, tail, 0);
    assert(value.skip(0) =~= value);

    let front = head + value + "&limit="@;
    assert(url =~= front + digits + Seq::<char>::empty());
    lemma_value_at(front, digits, Seq::empty(), 0);
    assert(digits.skip(0) =~= digits);
}

/// A historical-data URL asks for the whole trail and spells the history
/// flag as the word `true` or the word `false`, whatever the flight and the
/// file are.
pub proof fn lemma_historical_url_shape(
    bases: BaseAddresses,
    flight: &str,
    file: &str,
    history: bool,
)
    ensures
        ({
            let url = (Endpoint::HistoricalData { flight, file, history }).url(bases);
            &&& contains_text(url, "trailLimit=0"@)
            &&& ends_with(url, "&history="@ + bool_text(history))
            &&& bool_text(true) == "true"@
            &&& bool_text(false) == "false"@
            &&& "true"@ != "false"@
        }),
{
    let url = (Endpoint::HistoricalData { flight, file, history }).url(bases);
    let head = bases.web@ + "/download/?flight="@ + flight@ + "&file="@ + file@;
    reveal_strlit("&trailLimit=0&history=");
    reveal_strlit("trailLimit=0");
    reveal_strlit("&history=");
    reveal_strlit("true");
    reveal_strlit("false");
    let at: int = head.len() as int + 1;
    assert(url.subrange(at, at + "trailLimit=0"@.len() as int) =~= "trailLimit=0"@);
    let end = "&history="@ + bool_text(history);
    assert(url.subrange(url.len() - end.len(), url.len() as int) =~= end);
}

/// The characters that a URL may hold: the unreserved ones, the delimiters
/// `:/?#[]@!$&'()*+,;=` and `%`.
pub open spec fn is_url_char(c: char) -> bool {
    ||| is_unreserved(c)
    ||| c == ':' || c == '/' || c == '?' || c == '#' || c == '[' || c == ']' || c == '@'
    ||| c == '!' || c == '$' || c == '&' || c == '\'' || c == '(' || c == ')' || c == '*'
    ||| c == '+' || c == ',' || c == ';' || c == '=' || c == '%'
}

/// Whether a text holds nothing but characters that a URL may hold: no
/// control character, no space, nothing outside ASCII.
pub open spec fn is_url_text(text: Seq<char>) -> bool {
    forall|i: int| 0 <= i < text.len() ==> is_url_char(#[trigger] text[i])
}

impl<'a> BaseAddresses<'a> {
    /// Whether each base address holds nothing but characters that a URL
    /// may hold.
    pub open spec fn well_formed(&self) -> bool {
        &&& is_url_text(self.api@)
        &&& is_url_text(self.cdn@)
        &&& is_url_text(self.web@)
        &&& is_url_text(self.data_live@)
        &&& is_url_text(self.data_cloud@)
    }
}

/// Two texts that a URL may hold give, joined, a text that a URL may hold.
proof fn lemma_url_text_joined(a: Seq<char>, b: Seq<char>)
    requires
        is_url_text(a),
        is_url_text(b),
    ensures
        is_url_text(a + b),
{
}

/// The production service's base addresses are well formed.
pub proof fn lemma_standard_bases_well_formed(bases: BaseAddresses)
    requires
        bases.api@ == API_BASE@,
        bases.cdn@ == CDN_BASE@,
        bases.web@ == WEB_BASE@,
        bases.data_live@ == DATA_LIVE_BASE@,
        bases.data_cloud@ == DATA_CLOUD_BASE@,
    ensures
        bases.well_formed(),
{
    reveal_strlit("https://api.flightradar24.com/common/v1");
    reveal_strlit("https://cdn.flightradar24.com");
    reveal_strlit("https://www.flightradar24.com");
    reveal_strlit("https://data-live.flightradar24.com");
    reveal_strlit("https://data-cloud.flightradar24.com");
}

/// Resolution never emits an invalid URL: against well-formed base
/// addresses, the URL of an endpoint without a malformed parameter holds
/// nothing but characters that a URL may hold.
pub proof fn lemma_resolved_url_is_url_text(bases: BaseAddresses, endpoint: Endpoint)
    requires
        bases.well_formed(),
        endpoint.malformed() is None,
    ensures
        is_url_text(endpoint.url(bases)),
{
    match endpoint {
        Endpoint::UserLogin => {
            reveal_strlit("/user/login");
        },
        Endpoint::UserLogout => {
            reveal_strlit("/user/logout");
        },
        Endpoint::Search { query, limit } => {
            reveal_strlit("/v1/search/web/find?query=");
            reveal_strlit("&limit=");
            lemma_encoded_is_plain(encode_utf8(query@));
            lemma_decimal_shape(limit as nat);
            let a = bases.web@ + "/v1/search/web/find?query="@;
            lemma_url_text_joined(a, encoded_text(query@));
            lemma_url_text_joined(a + encoded_text(query@), "&limit="@);
            lemma_url_text_joined(a + encoded_text(query@) + "&limit="@, decimal(limit as nat));
        },
        Endpoint::RealTimeFlightTracker => {
            reveal_strlit("/zones/fcgi/feed.js");
        },
        Endpoint::FlightDetail { flight } => {
            reveal_strlit("/clickhandler/?flight=");
            lemma_url_text_joined(bases.data_live@ + "/clickhandler/?flight="@, flight@);
        },
        Endpoint::HistoricalData { flight, file, history } => {
            reveal_strlit("/download/?flight=");
            reveal_strlit("&file=");
            reveal_strlit("&trailLimit=0&history=");
            reveal_strlit("true");
            reveal_strlit("false");
            let a = bases.web@ + "/download/?flight="@;
            lemma_url_text_joined(a, flight@);
            lemma_url_text_joined(a + flight@, "&file="@);
            lemma_url_text_joined(a + flight@ + "&file="@, file@);
            let b = a + flight@ + "&file="@ + file@;
            lemma_url_text_joined(b, "&trailLimit=0&history="@);
            lemma_url_text_joined(b + "&trailLimit=0&history="@, bool_text(history));
        },
        Endpoint::ApiAirportList => {
            reveal_strlit("/airport.json");
        },
        Endpoint::AirportTrafficStats { airport } => {
            reveal_strlit("/airports/traffic-stats/?airport=");
            lemma_url_text_joined(bases.web@ + "/airports/traffic-stats/?airport="@, airport@);
        },
        Endpoint::AirportList => {
            reveal_strlit("/_json/airports.php");
        },
        Endpoint::AirlineList => {
            reveal_strlit("/_json/airlines.php");
        },
        Endpoint::ZoneList => {
            reveal_strlit("/js/zones.js.php");
        },
        Endpoint::VolcanicEruptions => {
            reveal_strlit("/weather/volcanic");
        },
        Endpoint::MostTracked => {
            reveal_strlit("/flights/most-tracked");
        },
        Endpoint::AirportDisruptions => {
            reveal_strlit("/webapi/v1/airport-disruptions");
        },
        Endpoint::Bookmarks => {
            reveal_strlit("/webapi/v1/bookmarks");
        },
        Endpoint::CountryFlag { country } => {
            reveal_strlit("/static/images/data/flags-small/");
            reveal_strlit(".svg");
            let a = bases.web@ + "/static/images/data/flags-small/"@;
            lemma_url_text_joined(a, country@);
            lemma_url_text_joined(a + country@, ".svg"@);
        },
        Endpoint::AirlineLogo { iata, icao } => {
            reveal_strlit("/assets/airlines/logotypes/");
            reveal_strlit("_");
            reveal_strlit(".png");
            let a = bases.cdn@ + "/assets/airlines/logotypes/"@;
            lemma_url_text_joined(a, iata@);
            lemma_url_text_joined(a + iata@, "_"@);
            lemma_url_text_joined(a + iata@ + "_"@, icao@);
            lemma_url_text_joined(a + iata@ + "_"@ + icao@, ".png"@);
        },
        Endpoint::AlternativeAirlineLogo { icao } => {
            reveal_strlit("/static/images/data/operators/");
            reveal_strlit("_logo0.png");
            let a = bases.web@ + "/static/images/data/operators/"@;
            lemma_url_text_joined(a, icao@);
            lemma_url_text_joined(a + icao@, "_logo0.png"@);
        },
    }
}

} // verus!
