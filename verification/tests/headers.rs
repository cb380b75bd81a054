use flightradar_api::{header_profile, Core, ProfileKind};
use reqwest::header::{HeaderMap, HeaderValue, ACCEPT, ACCEPT_ENCODING, USER_AGENT};

const BASE: [(&str, &str); 9] = [
    ("accept-encoding", "gzip, br"),
    ("accept-language", "pt-BR,pt;q=0.9,en-US;q=0.8,en;q=0.7"),
    ("cache-control", "max-age=0"),
    ("origin", "https://www.flightradar24.com"),
    ("referer", "https://www.flightradar24.com"),
    ("sec-fetch-dest", "empty"),
    ("sec-fetch-mode", "cors"),
    ("sec-fetch-site", "same-site"),
    (
        "user-agent",
        "Mozilla/5.0 (Windows NT 6.1) AppleWebKit/537.36 (KHTML, like Gecko) Chrome/87.0.4280.88 Safari/537.36",
    ),
];

fn value<'a>(m: &'a HeaderMap, name: &str) -> Option<&'a str> {
    m.get(name).map(|v| v.to_str().expect("text"))
}

fn holds_base(m: &HeaderMap) {
    for (name, expected) in BASE {
        assert_eq!(value(m, name), Some(expected), "{}", name);
        assert_eq!(m.get_all(name).iter().count(), 1, "{}", name);
    }
}

#[test]
fn base_profile_holds_the_defaults() {
    let m = Core::default_headers();
    holds_base(&m);
    assert_eq!(m.len(), 9);
    assert_eq!(m.keys_len(), 9);
    assert!(m.get(ACCEPT).is_none());
    assert_eq!(m.get(ACCEPT_ENCODING), Some(&HeaderValue::from_static("gzip, br")));
    assert!(m.get(USER_AGENT).is_some());
}

#[test]
fn json_profile_adds_accept() {
    let m = Core::json_headers();
    holds_base(&m);
    assert_eq!(m.len(), 10);
    assert_eq!(m.keys_len(), 10);
    assert_eq!(value(&m, "accept"), Some("application/json"));
}

#[test]
fn image_profile_adds_accept() {
    let m = Core::image_headers();
    holds_base(&m);
    assert_eq!(m.len(), 10);
    assert_eq!(m.keys_len(), 10);
    assert_eq!(value(&m, "accept"), Some("image/gif, image/jpg, image/jpeg, image/png"));
}

#[test]
fn origin_and_referer_are_the_web_base() {
    let m = Core::default_headers();
    let web = flightradar_api::resolver::WEB_BASE;
    assert_eq!(value(&m, "origin"), Some(web));
    assert_eq!(value(&m, "referer"), Some(web));
}

#[test]
fn builder_by_kind_agrees_with_named_functions() {
    assert_eq!(header_profile(ProfileKind::Base), Core::default_headers());
    assert_eq!(header_profile(ProfileKind::Json), Core::json_headers());
    assert_eq!(header_profile(ProfileKind::Image), Core::image_headers());
}

#[test]
fn header_names_are_unique() {
    for kind in [ProfileKind::Base, ProfileKind::Json, ProfileKind::Image] {
        let m = header_profile(kind);
        let mut names: Vec<String> = m.keys().map(|k| k.as_str().to_string()).collect();
        let before = names.len();
        names.sort();
        names.dedup();
        assert_eq!(names.len(), before);
        assert_eq!(m.len(), m.keys_len());
    }
}

#[test]
fn building_twice_gives_equal_and_separate_maps() {
    for kind in [ProfileKind::Base, ProfileKind::Json, ProfileKind::Image] {
        let mut first = header_profile(kind);
        let second = header_profile(kind);
        assert_eq!(first, second);
        first.insert("x-extra", HeaderValue::from_static("1"));
        first.insert("accept", HeaderValue::from_static("text/plain"));
        first.remove("origin");
        assert_ne!(first, second);
        assert_eq!(second, header_profile(kind));
        assert!(second.get("x-extra").is_none());
        assert!(second.get("origin").is_some());
    }
}

#[test]
fn deriving_a_profile_leaves_the_base_untouched() {
    let base = Core::default_headers();
    let _json = Core::json_headers();
    let _image = Core::image_headers();
    assert_eq!(base, Core::default_headers());
    assert!(base.get("accept").is_none());
}

#[test]
fn profiles_differ_in_accept_only() {
    let base = Core::default_headers();
    let mut json = Core::json_headers();
    let mut image = Core::image_headers();
    let accepts = [
        value(&base, "accept").map(str::to_string),
        value(&json, "accept").map(str::to_string),
        value(&image, "accept").map(str::to_string),
    ];
    assert_ne!(accepts[0], accepts[1]);
    assert_ne!(accepts[0], accepts[2]);
    assert_ne!(accepts[1], accepts[2]);
    json.remove("accept");
    image.remove("accept");
    assert_eq!(json, base);
    assert_eq!(image, base);
}

#[test]
fn header_values_are_printable_ascii() {
    for kind in [ProfileKind::Base, ProfileKind::Json, ProfileKind::Image] {
        for (name, v) in header_profile(kind).iter() {
            assert!(v.as_bytes().iter().all(|b| (32..127).contains(b)), "{}", name);
            assert_eq!(name.as_str(), name.as_str().to_lowercase());
        }
    }
}
