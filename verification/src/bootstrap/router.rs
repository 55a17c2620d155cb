//! The HTTP front's decisions: the health answer, which origins CORS lets through,
//! which admin paths are static assets, and who passes the admin page guard.

use vstd::prelude::*;

use crate::infra::token::Role;
use crate::schema::modfile::lemma_decimal;
use crate::text::{chars_of, contains_char, decimal_spec, digits_value, decimal_string, push_str, str_eq};

verus! {

/// The body of the health check: `status` is `ok` or `degraded`, `db` is `ok` or
/// `error`; the answer is always a 200.
#[derive(Debug)]
pub struct HealthResponse {
    pub status: String,
    pub db: String,
}

/// The health answer for a database probe.
pub fn health_response(db_ok: bool) -> (r: HealthResponse)
    ensures
        r.status@ == (if db_ok { "ok"@ } else { "degraded"@ }),
        r.db@ == (if db_ok { "ok"@ } else { "error"@ }),
{
    HealthResponse {
        status: (if db_ok { "ok" } else { "degraded" }).to_owned(),
        db: (if db_ok { "ok" } else { "error" }).to_owned(),
    }
}

/// Whether a path under `/admin/` names a static asset of the admin app (it has a `.`);
/// any other path is a route of the single-page app, answered with its index page.
pub fn is_admin_asset_path(path: &str) -> (r: bool)
    ensures
        r == path@.contains('.'),
{
    contains_char(&chars_of(path), '.')
}

/// Whether a role may open the admin pages.
pub open spec fn can_access_admin_spec(role: Role) -> bool {
    role == Role::Admin
}

/// Whether the admin page guard lets a request through: without a valid session the
/// single-page app shows its login form, so the request passes; with one, only roles
/// that may open the admin pages pass.
pub fn admin_guard_allows(session_role: Option<Role>) -> (r: bool)
    ensures
        r == match session_role {
            None => true,
            Some(role) => can_access_admin_spec(role),
        },
{
    match session_role {
        None => true,
        Some(role) => role == Role::Admin,
    }
}

/// The origin of the local server on a port, for one host name.
pub open spec fn local_origin(host: Seq<char>, port: u16) -> Seq<char> {
    "http://"@ + host + ":"@ + decimal_spec(port as nat)
}

/// The origins that CORS always allows: the server's own port on `localhost` and
/// `127.0.0.1`, and, outside production on another port, the front-end dev server on
/// port 5173.
pub open spec fn base_origins_spec(port: u16, is_production: bool) -> Seq<Seq<char>> {
    let own = seq![local_origin("localhost"@, port), local_origin("127.0.0.1"@, port)];
    if !is_production && port != 5173 {
        own + seq!["http://localhost:5173"@, "http://127.0.0.1:5173"@]
    } else {
        own
    }
}

/// `http://{host}:{port}`.
fn origin_text(host: &str, port: u16) -> (r: String)
    ensures
        r@ == local_origin(host@, port),
{
    let mut s = "http://".to_owned();
    push_str(&mut s, host);
    push_str(&mut s, ":");
    let p = decimal_string(port as u64);
    push_str(&mut s, p.as_str());
    s
}

/// The origins that CORS always allows.
pub fn cors_base_origins(port: u16, is_production: bool) -> (r: Vec<String>)
    ensures
        r@.map_values(|s: String| s@) == base_origins_spec(port, is_production),
{
    let mut v: Vec<String> = Vec::new();
    v.push(origin_text("localhost", port));
    v.push(origin_text("127.0.0.1", port));
    if !is_production && port != 5173 {
        v.push("http://localhost:5173".to_owned());
        v.push("http://127.0.0.1:5173".to_owned());
    }
    assert(v@.map_values(|s: String| s@) =~= base_origins_spec(port, is_production));
    v
}

/// Names the origin that the `url` crate derives from a text: `None` when it does not
/// parse as a URL, else the Unicode serialisation of the URL's origin.
pub uninterp spec fn spec_url_origin(text: Seq<char>) -> Option<Seq<char>>;

/// Calls `url::Url::parse` and, on success, `origin().unicode_serialization()`. The
/// result is named; the `url` source gives `null` for an opaque origin, which this
/// contract does not restate.
#[verifier::external_body]
fn url_origin(text: &str) -> (r: Option<String>)
    ensures
        match r {
            Some(o) => spec_url_origin(text@) == Some(o@),
            None => spec_url_origin(text@) is None,
        },
{
    match url::Url::parse(text) {
        Ok(u) => Some(u.origin().unicode_serialization()),
        Err(_) => None,
    }
}

/// Whether a text is a valid HTTP header value: no control character but tab, and no
/// DEL.
pub open spec fn header_value_ok(s: Seq<char>) -> bool {
    forall|i: int| 0 <= i < s.len() ==> ((#[trigger] s[i]) == '\t' || (32 <= (s[i] as u32) && (s[i] as u32) != 127))
}

/// Whether a request origin is that of a configured URL (the site or the admin URL):
/// the URL is set, parses, and its origin, as a header value, is the request's origin.
pub open spec fn matches_configured_origin_spec(configured: Seq<char>, origin: Seq<char>) -> bool {
    &&& configured.len() > 0
    &&& spec_url_origin(configured) matches Some(o)
    &&& header_value_ok(o)
    &&& o == origin
}

/// Whether the text is a valid header value, computed.
fn is_header_value(s: &str) -> (r: bool)
    ensures
        r == header_value_ok(s@),
{
    let v = chars_of(s);
    let n = v.len();
    let mut i: usize = 0;
    while i < n
        invariant
            n == v@.len(),
            v@ == s@,
            i <= n,
            forall|j: int| 0 <= j < i ==> ((#[trigger] v@[j]) == '\t' || (32 <= (v@[j] as u32) && (v@[j] as u32)
                != 127)),
        decreases n - i,
    {
        let c = v[i];
        let u = c as u32;
        if !(c == '\t' || (32 <= u && u != 127)) {
            assert(v@[i as int] == c);
            return false;
        }
        i = i + 1;
    }
    true
}

/// Whether a request origin is that of a configured URL.
pub fn matches_configured_origin(configured: &str, origin: &str) -> (r: bool)
    ensures
        r == matches_configured_origin_spec(configured@, origin@),
{
    if chars_of(configured).len() == 0 {
        return false;
    }
    match url_origin(configured) {
        Some(o) => is_header_value(o.as_str()) && str_eq(o.as_str(), origin),
        None => false,
    }
}

/// Whether CORS lets a request origin through: one of the base origins, or the origin
/// of the configured site URL or admin URL.
pub open spec fn origin_allowed_spec(
    origin: Seq<char>,
    base: Seq<Seq<char>>,
    site_url: Seq<char>,
    admin_url: Seq<char>,
) -> bool {
    ||| base.contains(origin)
    ||| matches_configured_origin_spec(site_url, origin)
    ||| matches_configured_origin_spec(admin_url, origin)
}

/// Whether CORS lets a request origin through.
pub fn origin_allowed(origin: &str, base: &Vec<String>, site_url: &str, admin_url: &str) -> (r: bool)
    ensures
        r == origin_allowed_spec(origin@, base@.map_values(|s: String| s@), site_url@, admin_url@),
{
    let ghost bs = base@.map_values(|s: String| s@);
    let n = base.len();
    let mut i: usize = 0;
    while i < n
        invariant
            n == base@.len(),
            i <= n,
            bs == base@.map_values(|s: String| s@),
            forall|j: int| 0 <= j < i ==> bs[j] != origin@,
        decreases n - i,
    {
        if str_eq(base[i].as_str(), origin) {
            assert(bs[i as int] == origin@);
            return true;
        }
        i = i + 1;
    }
    assert(!bs.contains(origin@));
    matches_configured_origin(site_url, origin) || matches_configured_origin(admin_url, origin)
}

/// Whether the configured URL is set, parses, and has `origin` (a valid header value)
/// as its origin.
pub open spec fn url_has_origin(url: Seq<char>, origin: Seq<char>) -> bool {
    url.len() > 0 && spec_url_origin(url) == Some(origin) && header_value_ok(origin)
}

/// CORS lets an origin through exactly when it is a base origin or the origin of the
/// configured site URL or of the configured admin URL; the site URL and the admin URL
/// play the same role, so swapping them changes nothing.
pub proof fn law_cors_allows_base_site_and_admin_origins(
    origin: Seq<char>,
    base: Seq<Seq<char>>,
    site_url: Seq<char>,
    admin_url: Seq<char>,
)
    ensures
        origin_allowed_spec(origin, base, site_url, admin_url) <==> (base.contains(origin) || url_has_origin(
            site_url,
            origin,
        ) || url_has_origin(admin_url, origin)),
        origin_allowed_spec(origin, base, site_url, admin_url) == origin_allowed_spec(
            origin,
            base,
            admin_url,
            site_url,
        ),
{
}

proof fn lemma_other_port_is_not_the_dev_server(port: u16)
    requires
        port != 5173,
    ensures
        "http://localhost:"@ + decimal_spec(port as nat) != "http://localhost:5173"@,
        "http://127.0.0.1:"@ + decimal_spec(port as nat) != "http://localhost:5173"@,
{
    reveal_strlit("http://localhost:");
    reveal_strlit("http://127.0.0.1:");
    reveal_strlit("http://localhost:5173");
    let d = decimal_spec(port as nat);
    let dev = "http://localhost:5173"@;
    assert(("http://127.0.0.1:"@ + d)[7] != dev[7]);
    if "http://localhost:"@ + d == dev {
        lemma_decimal(port as nat);
        assert(("http://localhost:"@ + d).skip(17) =~= d);
        assert(d =~= seq!['5', '1', '7', '3']);
        reveal_with_fuel(digits_value, 5);
        assert(digits_value(seq!['5', '1', '7', '3']) == 5173);
    }
}

/// CORS always lets the server's own port through on `localhost` and `127.0.0.1`, and
/// the front-end dev server on port 5173 exactly outside production when the server runs
/// on another port.
pub proof fn law_cors_base_origins(port: u16, is_production: bool)
    ensures
        base_origins_spec(port, is_production).contains("http://localhost:"@ + decimal_spec(port as nat)),
        base_origins_spec(port, is_production).contains("http://127.0.0.1:"@ + decimal_spec(port as nat)),
        port != 5173 ==> (base_origins_spec(port, is_production).contains("http://localhost:5173"@)
            <==> !is_production),
        base_origins_spec(port, is_production).len() == (if !is_production && port != 5173 { 4nat } else { 2nat }),
{
    let b = base_origins_spec(port, is_production);
    reveal_strlit("http://");
    reveal_strlit("localhost");
    reveal_strlit("127.0.0.1");
    reveal_strlit(":");
    reveal_strlit("http://localhost:");
    reveal_strlit("http://127.0.0.1:");
    assert(b[0] =~= "http://localhost:"@ + decimal_spec(port as nat));
    assert(b[1] =~= "http://127.0.0.1:"@ + decimal_spec(port as nat));
    if !is_production && port != 5173 {
        assert(b[2] == "http://localhost:5173"@);
    }
    if port != 5173 && is_production && b.contains("http://localhost:5173"@) {
        let k = choose|k: int| 0 <= k < b.len() && b[k] == "http://localhost:5173"@;
        lemma_other_port_is_not_the_dev_server(port);
        assert(false);
    }
}

/// The request methods that CORS admits.
pub open spec fn cors_methods_spec() -> Seq<Seq<char>> {
    seq!["GET"@, "POST"@, "PATCH"@, "DELETE"@, "OPTIONS"@]
}

/// The request headers that CORS admits (header names are lower case).
pub open spec fn cors_allow_headers_spec() -> Seq<Seq<char>> {
    seq!["authorization"@, "content-type"@, "accept"@, "origin"@, "x-client-request-id"@, "x-api-key"@]
}

/// The response headers that CORS exposes to the page.
pub open spec fn cors_expose_headers_spec() -> Seq<Seq<char>> {
    seq!["x-client-request-id"@, "x-request-id"@]
}

/// The CORS policy of the API, as plain values: the base origins (beside which the
/// origins of the configured site and admin URLs pass, see [`origin_allowed`]),
/// whether credentials are allowed, and the admitted methods and headers.
pub struct CorsSettings {
    pub base_origins: Vec<String>,
    pub allow_credentials: bool,
    pub allow_methods: Vec<&'static str>,
    pub allow_headers: Vec<&'static str>,
    pub expose_headers: Vec<&'static str>,
}

/// The views of a list of names.
pub open spec fn names_view(v: Seq<&'static str>) -> Seq<Seq<char>> {
    v.map_values(|s: &'static str| s@)
}

/// The CORS policy for the server's port: credentials are allowed, the methods are
/// GET, POST, PATCH, DELETE and OPTIONS, the admitted headers are Authorization,
/// Content-Type, Accept, Origin, `x-client-request-id` and `x-api-key`, and the
/// exposed ones `x-client-request-id` and `x-request-id`.
pub fn configure_cors(port: u16, is_production: bool) -> (r: CorsSettings)
    ensures
        r.base_origins@.map_values(|s: String| s@) == base_origins_spec(port, is_production),
        r.allow_credentials,
        names_view(r.allow_methods@) == cors_methods_spec(),
        names_view(r.allow_headers@) == cors_allow_headers_spec(),
        names_view(r.expose_headers@) == cors_expose_headers_spec(),
{
    let base_origins = cors_base_origins(port, is_production);
    let allow_methods: Vec<&'static str> = vec!["GET", "POST", "PATCH", "DELETE", "OPTIONS"];
    let allow_headers: Vec<&'static str> = vec![
        "authorization",
        "content-type",
        "accept",
        "origin",
        "x-client-request-id",
        "x-api-key",
    ];
    let expose_headers: Vec<&'static str> = vec!["x-client-request-id", "x-request-id"];
    assert(names_view(allow_methods@) =~= cors_methods_spec());
    assert(names_view(allow_headers@) =~= cors_allow_headers_spec());
    assert(names_view(expose_headers@) =~= cors_expose_headers_spec());
    CorsSettings { base_origins, allow_credentials: true, allow_methods, allow_headers, expose_headers }
}

/// Where the Swagger UI is mounted, with the path of the OpenAPI document it reads:
/// nowhere in production, so that the API's endpoints are not listed there.
pub fn swagger_ui_paths(is_production: bool) -> (r: Option<(&'static str, &'static str)>)
    ensures
        is_production <==> r is None,
        r matches Some((ui, doc)) ==> ui@ == "/api/docs"@ && doc@ == "/api-docs/openapi.json"@,
{
    if is_production {
        None
    } else {
        Some(("/api/docs", "/api-docs/openapi.json"))
    }
}

} // verus!
