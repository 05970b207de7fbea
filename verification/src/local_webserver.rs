//! The request router and dispatch pipeline. Every inbound request is reduced
//! to plain values — a method and a path — and matched against a fixed rule
//! set; ingestion requests are resolved against the route table into a publish
//! plan; the console request is answered with a JSON aggregation of tables,
//! topics and routes. The network itself (accepting connections, reading
//! bodies, publishing to the broker) lives outside the library: it feeds these
//! functions and carries out the plans they return.

use vstd::prelude::*;
use vstd::string::StrSliceExecFns;
use vstd::string::StringExecFns;
use crate::json::append_json_string;
use crate::json::append_json_string_array;
use crate::json::json_string;
use crate::json::json_string_array;
use crate::route_table::RouteMetaView;
use crate::route_table::RouteTable;
use crate::text::contains_seq;
use crate::text::push_char;
use crate::text::spec_dec;
use crate::text::spec_normalize;
use crate::text::split_on;
use crate::text::split_str;
use crate::text::str_eq;
use crate::text::str_views;
use crate::text::normalize_path;
use crate::text::u16_to_dec;

verus! {

/// Where the local webserver binds.
#[derive(Debug, Clone)]
pub struct LocalWebserverConfig {
    pub host: String,
    pub port: u16,
}

/// The base URL of a host/port pair: `http://<host>:<port>`.
pub open spec fn spec_url(host: Seq<char>, port: nat) -> Seq<char> {
    "http://"@ + host + seq![':'] + spec_dec(port)
}

impl LocalWebserverConfig {
    pub fn new(host: String, port: u16) -> (c: LocalWebserverConfig)
        ensures
            c.host@ == host@,
            c.port == port,
    {
        LocalWebserverConfig { host, port }
    }

    /// The URL the server is reachable at.
    pub fn url(&self) -> (u: String)
        ensures
            u@ == spec_url(self.host@, self.port as nat),
    {
        let mut s = "http://".to_owned();
        s.append(self.host.as_str());
        push_char(&mut s, ':');
        let port_dec = u16_to_dec(self.port);
        s.append(port_dec.as_str());
        proof {
            assert(s@ =~= spec_url(self.host@, self.port as nat));
        }
        s
    }
}

impl Default for LocalWebserverConfig {
    /// The out-of-the-box binding: localhost, port 4000.
    fn default() -> (c: LocalWebserverConfig)
        ensures
            c.host@ == "localhost"@,
            c.port == 4000,
    {
        LocalWebserverConfig { host: "localhost".to_owned(), port: 4000 }
    }
}

/// One row of the console's routes listing.
#[derive(Debug, Clone)]
pub struct RouteInfo {
    pub route_path: String,
    pub file_path: String,
    pub table_name: String,
    pub view_name: Option<String>,
}

/// Spec-level image of a [`RouteInfo`].
pub struct RouteInfoView {
    pub route_path: Seq<char>,
    pub file_path: Seq<char>,
    pub table_name: Seq<char>,
    pub view_name: Option<Seq<char>>,
}

impl View for RouteInfo {
    type V = RouteInfoView;

    open spec fn view(&self) -> RouteInfoView {
        RouteInfoView {
            route_path: self.route_path@,
            file_path: self.file_path@,
            table_name: self.table_name@,
            view_name: match self.view_name {
                Option::Some(v) => Option::Some(v@),
                Option::None => Option::None,
            },
        }
    }
}

impl RouteInfo {
    pub fn new(route_path: String, file_path: String, table_name: String, view_name: Option<
        String,
    >) -> (r: RouteInfo)
        ensures
            r@ == (RouteInfoView {
                route_path: route_path@,
                file_path: file_path@,
                table_name: table_name@,
                view_name: match view_name {
                    Option::Some(v) => Option::Some(v@),
                    Option::None => Option::None::<Seq<char>>,
                },
            }),
    {
        RouteInfo { route_path, file_path, table_name, view_name }
    }
}

/// The local webserver's binding, kept by the serving loop outside the
/// library.
#[derive(Debug, Clone)]
pub struct Webserver {
    host: String,
    port: u16,
}

impl Webserver {
    pub closed spec fn spec_host(self) -> Seq<char> {
        self.host@
    }

    pub closed spec fn spec_port(self) -> u16 {
        self.port
    }

    pub fn new(host: String, port: u16) -> (w: Webserver)
        ensures
            w.spec_host() == host@,
            w.spec_port() == port,
    {
        Webserver { host, port }
    }

    /// The `<host>:<port>` form that name resolution takes.
    pub fn address(&self) -> (a: String)
        ensures
            a@ == self.spec_host() + seq![':'] + spec_dec(self.spec_port() as nat),
    {
        let mut s = self.host.clone();
        push_char(&mut s, ':');
        let port_dec = u16_to_dec(self.port);
        s.append(port_dec.as_str());
        s
    }
}

/// The methods the gateway distinguishes; everything else falls to the
/// no-match rule.
#[derive(Debug, Clone, Copy, PartialEq, Eq, Structural)]
pub enum HttpMethod {
    Get,
    Post,
    Options,
    Other,
}

/// A complete HTTP response: status code, headers, body text.
#[derive(Debug)]
pub struct HttpResponse {
    pub status: u16,
    pub headers: Vec<(String, String)>,
    pub body: String,
}

/// The views of a header list.
pub open spec fn header_views(h: Seq<(String, String)>) -> Seq<(Seq<char>, Seq<char>)> {
    h.map_values(|p: (String, String)| (p.0@, p.1@))
}

/// The fixed permissive CORS headers, parameterized by the allowed methods.
pub open spec fn cors_headers(methods: Seq<char>) -> Seq<(Seq<char>, Seq<char>)> {
    seq![
        ("Access-Control-Allow-Origin"@, "*"@),
        ("Access-Control-Allow-Methods"@, methods),
        ("Access-Control-Allow-Headers"@, "Content-Type, Baggage, Sentry-Trace"@),
    ]
}

fn cors_header_vec(methods: &str) -> (h: Vec<(String, String)>)
    ensures
        header_views(h@) == cors_headers(methods@),
{
    let mut h: Vec<(String, String)> = Vec::new();
    h.push(("Access-Control-Allow-Origin".to_owned(), "*".to_owned()));
    h.push(("Access-Control-Allow-Methods".to_owned(), methods.to_owned()));
    h.push((
        "Access-Control-Allow-Headers".to_owned(),
        "Content-Type, Baggage, Sentry-Trace".to_owned(),
    ));
    proof {
        assert(header_views(h@) =~= cors_headers(methods@));
    }
    h
}

/// The CORS preflight answer: 200 with the fixed permissive headers.
pub fn options_route() -> (r: HttpResponse)
    ensures
        r.status == 200,
        header_views(r.headers@) == cors_headers("POST, OPTIONS"@),
        r.body@ == "Success"@,
{
    HttpResponse {
        status: 200,
        headers: cors_header_vec("POST, OPTIONS"),
        body: "Success".to_owned(),
    }
}

/// The answer when no dispatch rule matches: 404, pointing at the console.
pub fn no_match_response() -> (r: HttpResponse)
    ensures
        r.status == 404,
        r.headers@.len() == 0,
        r.body@ == "visit /console to view your routes"@,
{
    HttpResponse {
        status: 404,
        headers: Vec::new(),
        body: "visit /console to view your routes".to_owned(),
    }
}

/// What the dispatcher decided for a request.
#[derive(Debug)]
pub enum RouteAction {
    /// Answer the CORS preflight.
    CorsPreflight,
    /// Hand the request to the ingestion handler, keyed by the normalized path.
    Ingest { route: String },
    /// Hand the request to the console handler.
    Console,
    /// No rule matched.
    NotFound,
}

/// The normalized path names an ingestion endpoint: exactly the two segments
/// `ingest` and a name.
pub open spec fn is_ingest_path(p: Seq<char>) -> bool {
    split_on(p, '/').len() == 2 && split_on(p, '/')[0] == "ingest"@
}

/// The normalized path names the console: the one segment `console`.
pub open spec fn is_console_path(p: Seq<char>) -> bool {
    split_on(p, '/').len() == 1 && split_on(p, '/')[0] == "console"@
}

/// Matches a request against the fixed rule set, in precedence order:
/// CORS preflight, ingestion, console, no match. Any path — parseable or not —
/// lands in one of the four; nothing panics.
pub fn route_request(method: HttpMethod, path: &str) -> (a: RouteAction)
    ensures
        method is Options ==> a is CorsPreflight,
        method is Post && is_ingest_path(spec_normalize(path@)) ==> (a matches RouteAction::Ingest {
            route,
        } && route@ == spec_normalize(path@)),
        method is Get && is_console_path(spec_normalize(path@)) ==> a is Console,
        !(method is Options) && !(method is Post && is_ingest_path(spec_normalize(path@))) && !(
        method is Get && is_console_path(spec_normalize(path@))) ==> a is NotFound,
{
    let norm = normalize_path(path);
    match method {
        HttpMethod::Options => RouteAction::CorsPreflight,
        HttpMethod::Post => {
            let segs = split_str(norm.as_str(), '/');
            proof {
                assert(str_views(segs@).len() == segs@.len());
            }
            if segs.len() == 2 && str_eq(segs[0].as_str(), "ingest") {
                proof {
                    assert(str_views(segs@)[0] == segs@[0]@);
                }
                RouteAction::Ingest { route: norm }
            } else {
                proof {
                    assert(segs@.len() == 2 ==> str_views(segs@)[0] == segs@[0]@);
                }
                RouteAction::NotFound
            }
        },
        HttpMethod::Get => {
            let segs = split_str(norm.as_str(), '/');
            proof {
                assert(str_views(segs@).len() == segs@.len());
            }
            if segs.len() == 1 && str_eq(segs[0].as_str(), "console") {
                proof {
                    assert(str_views(segs@)[0] == segs@[0]@);
                }
                RouteAction::Console
            } else {
                proof {
                    assert(segs@.len() == 1 ==> str_views(segs@)[0] == segs@[0]@);
                }
                RouteAction::NotFound
            }
        },
        HttpMethod::Other => RouteAction::NotFound,
    }
}

/// 404 for an ingestion path absent from the table — an expected outcome,
/// not an internal error.
pub fn not_found_ingest_response() -> (r: HttpResponse)
    ensures
        r.status == 404,
        r.headers@.len() == 0,
        r.body@ == "Please visit /console to view your routes"@,
{
    HttpResponse {
        status: 404,
        headers: Vec::new(),
        body: "Please visit /console to view your routes".to_owned(),
    }
}

/// The ingestion decision for one request.
#[derive(Debug)]
pub enum IngestPlan {
    /// The path is not in the table: answer 404; no broker call is part of
    /// this plan.
    NotFound(HttpResponse),
    /// Publish the raw body exactly once to the route's backing table,
    /// keyed by that same name.
    Publish { topic: String, key: String, payload: Vec<u8> },
}

/// Resolves an ingestion request against the table. A present route yields
/// the one publish — topic equal to the route's backing table name, key equal
/// to the topic, payload the raw body; an absent route yields the 404 answer
/// and no publish.
pub fn plan_ingest(table: &RouteTable, route: &str, body: Vec<u8>) -> (p: IngestPlan)
    ensures
        table@.dom().contains(route@) ==> (p matches IngestPlan::Publish { topic, key, payload }
            && topic@ == table@[route@].table_name && key@ == topic@ && payload@ == body@),
        !table@.dom().contains(route@) ==> (p matches IngestPlan::NotFound(r) && r.status == 404
            && r.headers@.len() == 0 && r.body@
            == "Please visit /console to view your routes"@),
{
    match table.lookup(route) {
        Option::Some(meta) => {
            let key = meta.table_name.clone();
            IngestPlan::Publish { topic: meta.table_name, key, payload: body }
        },
        Option::None => IngestPlan::NotFound(not_found_ingest_response()),
    }
}

/// The HTTP exchange of an ingestion completes with 200 either way; the body
/// text tells delivery success from delivery failure.
pub fn ingest_response(published: bool) -> (r: HttpResponse)
    ensures
        r.status == 200,
        r.headers@.len() == 0,
        published ==> r.body@ == "SUCCESS"@,
        !published ==> r.body@ == "Error"@,
{
    if published {
        HttpResponse { status: 200, headers: Vec::new(), body: "SUCCESS".to_owned() }
    } else {
        HttpResponse { status: 200, headers: Vec::new(), body: "Error".to_owned() }
    }
}

/// The views of a routes listing.
pub open spec fn route_info_views(v: Seq<RouteInfo>) -> Seq<RouteInfoView> {
    v.map_values(|r: RouteInfo| r@)
}

/// The console row a table entry denotes.
pub open spec fn route_info_of_entry(e: (Seq<char>, RouteMetaView)) -> RouteInfoView {
    RouteInfoView {
        route_path: e.0,
        file_path: e.1.original_file_path,
        table_name: e.1.table_name,
        view_name: e.1.view_name,
    }
}

/// The console rows of a whole entry sequence, in table order.
pub open spec fn routes_of_entries(es: Seq<(Seq<char>, RouteMetaView)>) -> Seq<RouteInfoView> {
    es.map_values(|e: (Seq<char>, RouteMetaView)| route_info_of_entry(e))
}

/// The JSON object denoting one console row; `view_name` appears only when a
/// materialized view is configured.
pub open spec fn route_object(r: RouteInfoView) -> Seq<char> {
    "{\"route_path\":"@ + json_string(r.route_path) + ",\"file_path\":"@ + json_string(r.file_path)
        + ",\"table_name\":"@ + json_string(r.table_name) + (match r.view_name {
        Option::Some(v) => ",\"view_name\":"@ + json_string(v),
        Option::None => Seq::<char>::empty(),
    }) + seq!['}']
}

/// Comma-separated console rows.
pub open spec fn route_items(rs: Seq<RouteInfoView>) -> Seq<char>
    decreases rs.len(),
{
    if rs.len() == 0 {
        Seq::<char>::empty()
    } else if rs.len() == 1 {
        route_object(rs[0])
    } else {
        route_items(rs.drop_last()) + seq![','] + route_object(rs.last())
    }
}

/// The JSON array of console rows.
pub open spec fn routes_array(rs: Seq<RouteInfoView>) -> Seq<char> {
    seq!['['] + route_items(rs) + seq![']']
}

/// The whole console payload: one object with the keys `tables`, `topics`
/// and `routes`, in that order.
pub open spec fn console_json(
    tables: Seq<Seq<char>>,
    topics: Seq<Seq<char>>,
    routes: Seq<RouteInfoView>,
) -> Seq<char> {
    "{\"tables\":"@ + json_string_array(tables) + ",\"topics\":"@ + json_string_array(topics)
        + ",\"routes\":"@ + routes_array(routes) + seq!['}']
}

fn append_route_object(out: &mut String, r: &RouteInfo)
    ensures
        final(out)@ == old(out)@ + route_object(r@),
{
    out.append("{\"route_path\":");
    append_json_string(out, r.route_path.as_str());
    out.append(",\"file_path\":");
    append_json_string(out, r.file_path.as_str());
    out.append(",\"table_name\":");
    append_json_string(out, r.table_name.as_str());
    match &r.view_name {
        Option::Some(v) => {
            out.append(",\"view_name\":");
            append_json_string(out, v.as_str());
        },
        Option::None => {},
    }
    push_char(out, '}');
    proof {
        assert(out@ =~= old(out)@ + route_object(r@));
    }
}

fn append_routes_array(out: &mut String, routes: &Vec<RouteInfo>)
    ensures
        final(out)@ == old(out)@ + routes_array(route_info_views(routes@)),
{
    push_char(out, '[');
    let n = routes.len();
    let mut i: usize = 0;
    proof {
        assert(route_info_views(routes@).subrange(0, 0) =~= Seq::<RouteInfoView>::empty());
        assert(out@ =~= old(out)@ + seq!['['] + route_items(
            route_info_views(routes@).subrange(0, 0),
        ));
    }
    while i < n
        invariant
            n == routes@.len(),
            i <= n,
            out@ == old(out)@ + seq!['['] + route_items(
                route_info_views(routes@).subrange(0, i as int),
            ),
        decreases n - i,
    {
        if i > 0 {
            push_char(out, ',');
        }
        append_route_object(out, &routes[i]);
        proof {
            let pre = route_info_views(routes@).subrange(0, i as int);
            let post = route_info_views(routes@).subrange(0, i + 1);
            assert(post.drop_last() =~= pre);
            assert(post.last() == routes@[i as int]@);
            assert(out@ =~= old(out)@ + seq!['['] + route_items(post));
        }
        i = i + 1;
    }
    push_char(out, ']');
    proof {
        assert(route_info_views(routes@).subrange(0, n as int) =~= route_info_views(routes@));
        assert(out@ =~= old(out)@ + routes_array(route_info_views(routes@)));
    }
}

/// Builds the console payload from the three listings.
pub fn console_payload(tables: &Vec<String>, topics: &Vec<String>, routes: &Vec<RouteInfo>) -> (body:
    String)
    ensures
        body@ == console_json(str_views(tables@), str_views(topics@), route_info_views(routes@)),
{
    let mut out = "{\"tables\":".to_owned();
    append_json_string_array(&mut out, tables);
    out.append(",\"topics\":");
    append_json_string_array(&mut out, topics);
    out.append(",\"routes\":");
    append_routes_array(&mut out, routes);
    push_char(&mut out, '}');
    proof {
        assert(out@ =~= console_json(
            str_views(tables@),
            str_views(topics@),
            route_info_views(routes@),
        ));
    }
    out
}

/// Answers the console request: 200, CORS headers for GET, and the JSON
/// aggregation of the analytics-store tables, the broker topics, and the
/// table's current routes — all three keys present whatever the listings hold.
pub fn console_route(table: &RouteTable, tables: &Vec<String>, topics: &Vec<String>) -> (r:
    HttpResponse)
    ensures
        r.status == 200,
        header_views(r.headers@) == cors_headers("GET"@),
        r.body@ == console_json(
            str_views(tables@),
            str_views(topics@),
            routes_of_entries(table.entry_seq()),
        ),
{
    let pairs = table.snapshot();
    let n = pairs.len();
    let mut routes: Vec<RouteInfo> = Vec::new();
    let mut i: usize = 0;
    while i < n
        invariant
            n == pairs@.len(),
            crate::route_table::entry_views(pairs@) == table.entry_seq(),
            i <= n,
            routes@.len() == i,
            forall|k: int|
                0 <= k < i ==> (#[trigger] route_info_views(routes@)[k]) == routes_of_entries(
                    table.entry_seq(),
                )[k],
        decreases n - i,
    {
        let meta = pairs[i].1.duplicate();
        let path = pairs[i].0.clone();
        let ghost old_routes = routes@;
        routes.push(RouteInfo::new(
            path,
            meta.original_file_path,
            meta.table_name,
            meta.view_name,
        ));
        proof {
            assert forall|k: int| 0 <= k < i + 1 implies (#[trigger] route_info_views(routes@)[k])
                == routes_of_entries(table.entry_seq())[k] by {
                if k < i {
                    assert(routes@[k] == old_routes[k]);
                    assert(route_info_views(old_routes)[k] == routes_of_entries(
                        table.entry_seq(),
                    )[k]);
                } else {
                    assert(crate::route_table::entry_views(pairs@)[k] == (pairs@[k].0@, pairs@[k].1@));
                }
            }
        }
        i = i + 1;
    }
    proof {
        assert(route_info_views(routes@) =~= routes_of_entries(table.entry_seq()));
    }
    let body = console_payload(tables, topics, &routes);
    HttpResponse { status: 200, headers: cors_header_vec("GET"), body }
}

/// The console payload always carries all three keys — in particular when
/// every listing is empty.
pub proof fn lemma_console_keys(
    tables: Seq<Seq<char>>,
    topics: Seq<Seq<char>>,
    routes: Seq<RouteInfoView>,
)
    ensures
        contains_seq(console_json(tables, topics, routes), "\"tables\""@),
        contains_seq(console_json(tables, topics, routes), "\"topics\""@),
        contains_seq(console_json(tables, topics, routes), "\"routes\""@),
{
    reveal_strlit("{\"tables\":");
    reveal_strlit(",\"topics\":");
    reveal_strlit(",\"routes\":");
    reveal_strlit("\"tables\"");
    reveal_strlit("\"topics\"");
    reveal_strlit("\"routes\"");
    let whole = console_json(tables, topics, routes);
    let a = "{\"tables\":"@;
    let b = json_string_array(tables);
    let c = ",\"topics\":"@;
    let d = json_string_array(topics);
    let e = ",\"routes\":"@;
    assert(whole.subrange(1, 1 + "\"tables\""@.len() as int) =~= "\"tables\""@);
    let w_topics: int = a.len() + b.len() + 1int;
    assert(whole.subrange(w_topics, w_topics + "\"topics\""@.len() as int) =~= "\"topics\""@);
    let w_routes: int = a.len() + b.len() + c.len() + d.len() + 1int;
    assert(whole.subrange(w_routes, w_routes + "\"routes\""@.len() as int) =~= "\"routes\""@);
}

} // verus!
