//! The header profile builder: the fixed header sets that accompany each
//! class of request.

use crate::resolver::WEB_BASE;
use reqwest::header::HeaderMap;
use reqwest::header::HeaderValue;
use vstd::prelude::*;

verus! {

/// `reqwest::header::HeaderMap`, the multimap from header names to values
/// that the transport consumes. Proofs see its contents only through
/// [`header_fields`].
#[verifier::external_type_specification]
#[verifier::external_body]
#[verifier::reject_recursive_types(T)]
pub struct ExHeaderMap<T>(HeaderMap<T>);

/// `reqwest::header::HeaderValue`, one header value.
#[verifier::external_type_specification]
#[verifier::external_body]
pub struct ExHeaderValue(HeaderValue);

/// What a header map holds: each header name that is present, in lower case,
/// with the values stored under it in the order in which `get_all` yields
/// them, each value as its bytes read one character per byte.
pub uninterp spec fn header_fields(m: HeaderMap) -> Map<Seq<char>, Seq<Seq<char>>>;

/// The contents of a map without headers.
pub open spec fn no_fields() -> Map<Seq<char>, Seq<Seq<char>>> {
    Map::empty()
}

/// Whether a character may stand in a header name given to [`set_field`]:
/// a lower-case letter, a digit or `-`.
pub open spec fn is_name_char(c: char) -> bool {
    'a' <= c <= 'z' || '0' <= c <= '9' || c == '-'
}

/// Whether a text may be given to [`set_field`] as a header name.
pub open spec fn is_field_name(name: Seq<char>) -> bool {
    &&& 1 <= name.len() <= 64
    &&& forall|i: int| 0 <= i < name.len() ==> is_name_char(#[trigger] name[i])
}

/// Whether a text may be given to [`set_field`] as a header value: printable
/// ASCII only.
pub open spec fn is_field_value(value: Seq<char>) -> bool {
    forall|i: int| 0 <= i < value.len() ==> ' ' <= #[trigger] value[i] <= '~'
}

/// The most header names that a map may hold when [`set_field`] is called.
pub open spec fn field_limit() -> nat {
    4096
}

/// `HeaderMap::new`: the new map holds no header.
#[verifier::external_body]
fn empty_header_map() -> (m: HeaderMap)
    ensures
        header_fields(m) == no_fields(),
{
    HeaderMap::new()
}

/// `HeaderMap::insert`, with the name given as a static string and the value
/// made by `HeaderValue::from_static`. Afterwards the name holds exactly the
/// given value, whatever it held before, and every other name holds what it
/// held. The outside code panics on a name or value with characters that it
/// does not accept, and on a map that cannot grow; the conditions here keep
/// clear of both: names of at most 64 lower-case letters, digits and `-` are
/// stored as they are, printable ASCII is accepted as a value, and a map
/// refuses to grow only when it already holds several thousand names.
#[verifier::external_body]
fn set_field(m: &mut HeaderMap, name: &'static str, value: &'static str)
    requires
        is_field_name(name@),
        is_field_value(value@),
        header_fields(*old(m)).dom().finite(),
        header_fields(*old(m)).dom().len() < field_limit(),
    ensures
        header_fields(*final(m)) == header_fields(*old(m)).insert(name@, seq![value@]),
{
    m.insert(name, HeaderValue::from_static(value));
}

/// The classes of request that have a header profile of their own.
#[derive(Clone, Copy, Debug, PartialEq, Eq, Structural)]
pub enum ProfileKind {
    /// The defaults shared by every request.
    Base,
    /// Requests that expect JSON.
    Json,
    /// Requests that expect an image.
    Image,
}

/// The headers of the base profile, each name with its one value. Origin
/// and referer are the address of the web site.
pub open spec fn base_fields() -> Map<Seq<char>, Seq<Seq<char>>> {
    no_fields().insert("accept-encoding"@, seq!["gzip, br"@]).insert(
        "accept-language"@,
        seq!["pt-BR,pt;q=0.9,en-US;q=0.8,en;q=0.7"@],
    ).insert("cache-control"@, seq!["max-age=0"@]).insert("origin"@, seq![WEB_BASE@]).insert(
        "referer"@,
        seq![WEB_BASE@],
    ).insert(
        "sec-fetch-dest"@,
        seq!["empty"@],
    ).insert("sec-fetch-mode"@, seq!["cors"@]).insert("sec-fetch-site"@, seq!["same-site"@]).insert(
        "user-agent"@,
        seq![
            "Mozilla/5.0 (Windows NT 6.1) AppleWebKit/537.36 (KHTML, like Gecko) Chrome/87.0.4280.88 Safari/537.36"@,
        ],
    )
}

/// The headers of a profile: those of the base profile, and for the two
/// specialised profiles an `accept` header on top.
pub open spec fn profile_fields(kind: ProfileKind) -> Map<Seq<char>, Seq<Seq<char>>> {
    match kind {
        ProfileKind::Base => base_fields(),
        ProfileKind::Json => base_fields().insert("accept"@, seq!["application/json"@]),
        ProfileKind::Image => base_fields().insert(
            "accept"@,
            seq!["image/gif, image/jpg, image/jpeg, image/png"@],
        ),
    }
}

/// Builds the base profile as a map of its own.
fn base_profile() -> (m: HeaderMap)
    ensures
        header_fields(m) == base_fields(),
        header_fields(m).dom().finite(),
        header_fields(m).dom().len() <= 9,
{
    proof {
        reveal_strlit("accept-encoding");
        reveal_strlit("gzip, br");
        reveal_strlit("accept-language");
        reveal_strlit("pt-BR,pt;q=0.9,en-US;q=0.8,en;q=0.7");
        reveal_strlit("cache-control");
        reveal_strlit("max-age=0");
        reveal_strlit("origin");
        reveal_strlit("https://www.flightradar24.com");
        reveal_strlit("referer");
        reveal_strlit("sec-fetch-dest");
        reveal_strlit("empty");
        reveal_strlit("sec-fetch-mode");
        reveal_strlit("cors");
        reveal_strlit("sec-fetch-site");
        reveal_strlit("same-site");
        reveal_strlit("user-agent");
        reveal_strlit(
            "Mozilla/5.0 (Windows NT 6.1) AppleWebKit/537.36 (KHTML, like Gecko) Chrome/87.0.4280.88 Safari/537.36",
        );
    }
    let mut m = empty_header_map();
    set_field(&mut m, "accept-encoding", "gzip, br");
    set_field(&mut m, "accept-language", "pt-BR,pt;q=0.9,en-US;q=0.8,en;q=0.7");
    set_field(&mut m, "cache-control", "max-age=0");
    set_field(&mut m, "origin", WEB_BASE);
    set_field(&mut m, "referer", WEB_BASE);
    set_field(&mut m, "sec-fetch-dest", "empty");
    set_field(&mut m, "sec-fetch-mode", "cors");
    set_field(&mut m, "sec-fetch-site", "same-site");
    set_field(
        &mut m,
        "user-agent",
        "Mozilla/5.0 (Windows NT 6.1) AppleWebKit/537.36 (KHTML, like Gecko) Chrome/87.0.4280.88 Safari/537.36",
    );
    m
}

/// Builds the header profile of the given kind. Every call returns a map of
/// its own.
pub fn header_profile(kind: ProfileKind) -> (m: HeaderMap)
    ensures
        header_fields(m) == profile_fields(kind),
{
    let mut m = base_profile();
    proof {
        reveal_strlit("accept");
        reveal_strlit("application/json");
        reveal_strlit("image/gif, image/jpg, image/jpeg, image/png");
    }
    match kind {
        ProfileKind::Base => {},
        ProfileKind::Json => {
            set_field(&mut m, "accept", "application/json");
        },
        ProfileKind::Image => {
            set_field(&mut m, "accept", "image/gif, image/jpg, image/jpeg, image/png");
        },
    }
    m
}

/// The value that a set of headers holds under a name, where it holds
/// exactly one.
pub open spec fn field_value(fields: Map<Seq<char>, Seq<Seq<char>>>, name: Seq<char>) -> Option<
    Seq<char>,
> {
    if fields.dom().contains(name) && fields[name].len() == 1 {
        Some(fields[name][0])
    } else {
        None
    }
}

/// The ten header names differ from one another: by their lengths, or at
/// the position given here.
proof fn lemma_names_differ()
    ensures
        "accept"@.len() == 6,
        "accept-encoding"@.len() == 15,
        "accept-language"@.len() == 15,
        "cache-control"@.len() == 13,
        "origin"@.len() == 6,
        "referer"@.len() == 7,
        "sec-fetch-dest"@.len() == 14,
        "sec-fetch-mode"@.len() == 14,
        "sec-fetch-site"@.len() == 14,
        "user-agent"@.len() == 10,
        "accept-encoding"@[7] != "accept-language"@[7],
        "sec-fetch-dest"@[10] != "sec-fetch-mode"@[10],
        "sec-fetch-dest"@[10] != "sec-fetch-site"@[10],
        "sec-fetch-mode"@[10] != "sec-fetch-site"@[10],
        "origin"@[0] != "accept"@[0],
{
    reveal_strlit("accept");
    reveal_strlit("accept-encoding");
    reveal_strlit("accept-language");
    reveal_strlit("cache-control");
    reveal_strlit("origin");
    reveal_strlit("referer");
    reveal_strlit("sec-fetch-dest");
    reveal_strlit("sec-fetch-mode");
    reveal_strlit("sec-fetch-site");
    reveal_strlit("user-agent");
}

/// The base profile has nine headers, none of them `accept`, and one value
/// under each name.
pub proof fn lemma_base_fields()
    ensures
        base_fields().dom().finite(),
        base_fields().dom().len() == 9,
        !base_fields().dom().contains("accept"@),
        forall|name: Seq<char>| #[trigger]
            base_fields().dom().contains(name) ==> base_fields()[name].len() == 1,
{
    lemma_names_differ();
    let m1 = no_fields().insert("accept-encoding"@, seq!["gzip, br"@]);
    let m2 = m1.insert("accept-language"@, seq!["pt-BR,pt;q=0.9,en-US;q=0.8,en;q=0.7"@]);
    let m3 = m2.insert("cache-control"@, seq!["max-age=0"@]);
    let m4 = m3.insert("origin"@, seq![WEB_BASE@]);
    let m5 = m4.insert("referer"@, seq![WEB_BASE@]);
    let m6 = m5.insert("sec-fetch-dest"@, seq!["empty"@]);
    let m7 = m6.insert("sec-fetch-mode"@, seq!["cors"@]);
    let m8 = m7.insert("sec-fetch-site"@, seq!["same-site"@]);
    assert(m1.dom().finite() && m1.dom().len() == 1);
    assert(!m1.dom().contains("accept-language"@));
    assert(m2.dom().finite() && m2.dom().len() == 2);
    assert(!m2.dom().contains("cache-control"@));
    assert(m3.dom().finite() && m3.dom().len() == 3);
    assert(!m3.dom().contains("origin"@));
    assert(m4.dom().finite() && m4.dom().len() == 4);
    assert(!m4.dom().contains("referer"@));
    assert(m5.dom().finite() && m5.dom().len() == 5);
    assert(!m5.dom().contains("sec-fetch-dest"@));
    assert(m6.dom().finite() && m6.dom().len() == 6);
    assert(!m6.dom().contains("sec-fetch-mode"@));
    assert(m7.dom().finite() && m7.dom().len() == 7);
    assert(!m7.dom().contains("sec-fetch-site"@));
    assert(m8.dom().finite() && m8.dom().len() == 8);
    assert(!m8.dom().contains("user-agent"@));
    assert(!m8.dom().contains("accept"@));
}

/// What the base profile fixes, header by header, and so what every profile
/// holds under these names.
pub proof fn lemma_profile_values(kind: ProfileKind)
    ensures
        field_value(profile_fields(kind), "accept-encoding"@) == Some("gzip, br"@),
        field_value(profile_fields(kind), "accept-language"@) == Some(
            "pt-BR,pt;q=0.9,en-US;q=0.8,en;q=0.7"@,
        ),
        field_value(profile_fields(kind), "cache-control"@) == Some("max-age=0"@),
        field_value(profile_fields(kind), "origin"@) == Some(WEB_BASE@),
        field_value(profile_fields(kind), "referer"@) == Some(WEB_BASE@),
        field_value(profile_fields(kind), "sec-fetch-dest"@) == Some("empty"@),
        field_value(profile_fields(kind), "sec-fetch-mode"@) == Some("cors"@),
        field_value(profile_fields(kind), "sec-fetch-site"@) == Some("same-site"@),
        field_value(profile_fields(kind), "user-agent"@) == Some(
            "Mozilla/5.0 (Windows NT 6.1) AppleWebKit/537.36 (KHTML, like Gecko) Chrome/87.0.4280.88 Safari/537.36"@,
        ),
{
    lemma_names_differ();
}

/// Within a profile every header name occurs once and holds one value.
pub proof fn lemma_profile_names_unique(kind: ProfileKind)
    ensures
        profile_fields(kind).dom().finite(),
        profile_fields(kind).dom().len() == if kind == ProfileKind::Base {
            9nat
        } else {
            10nat
        },
        forall|name: Seq<char>| #[trigger]
            profile_fields(kind).dom().contains(name) ==> profile_fields(kind)[name].len() == 1,
{
    lemma_base_fields();
}

/// The three profiles agree on every header but `accept`: without it, each
/// of them is the base profile. Under `accept` the base profile holds
/// nothing, the JSON profile `application/json` and the image profile the
/// list of image types, and no two of the three are the same.
pub proof fn lemma_profiles_differ_in_accept_only(kind: ProfileKind)
    ensures
        profile_fields(kind).remove("accept"@) == base_fields(),
        field_value(profile_fields(ProfileKind::Base), "accept"@) == None::<Seq<char>>,
        field_value(profile_fields(ProfileKind::Json), "accept"@) == Some("application/json"@),
        field_value(profile_fields(ProfileKind::Image), "accept"@) == Some(
            "image/gif, image/jpg, image/jpeg, image/png"@,
        ),
        "application/json"@ != "image/gif, image/jpg, image/jpeg, image/png"@,
{
    lemma_base_fields();
    reveal_strlit("application/json");
    reveal_strlit("image/gif, image/jpg, image/jpeg, image/png");
    assert("application/json"@.len() != "image/gif, image/jpg, image/jpeg, image/png"@.len());
    assert(profile_fields(kind).remove("accept"@) =~= base_fields());
}

/// Building a profile is repeatable: any two maps built for the same kind
/// hold the same headers.
pub proof fn lemma_profile_repeatable(kind: ProfileKind, first: HeaderMap, second: HeaderMap)
    requires
        header_fields(first) == profile_fields(kind),
        header_fields(second) == profile_fields(kind),
    ensures
        header_fields(first) == header_fields(second),
{
}

} // verus!
