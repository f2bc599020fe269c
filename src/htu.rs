use vstd::prelude::*;

use crate::text::{decimal, lower_seq, owned, push_char, push_str, same_text, to_ascii_lowercase, u64_text};

verus! {

/// The parts of an absolute URL that the comparison of `htu` values reads.
pub struct UrlParts {
    pub scheme: String,
    pub host: Option<String>,
    /// The explicit port, absent when the URL names none or names its scheme's default.
    pub port: Option<u16>,
    pub path: String,
    pub query: Option<String>,
}

pub struct UrlPartsView {
    pub scheme: Seq<char>,
    pub host: Option<Seq<char>>,
    pub port: Option<u16>,
    pub path: Seq<char>,
    pub query: Option<Seq<char>>,
}

pub open spec fn opt_text(o: Option<String>) -> Option<Seq<char>> {
    match o {
        Some(s) => Some(s@),
        None => None,
    }
}

pub open spec fn opt_str(o: Option<&str>) -> Option<Seq<char>> {
    match o {
        Some(s) => Some(s@),
        None => None,
    }
}

impl View for UrlParts {
    type V = UrlPartsView;

    open spec fn view(&self) -> UrlPartsView {
        UrlPartsView {
            scheme: self.scheme@,
            host: opt_text(self.host),
            port: self.port,
            path: self.path@,
            query: opt_text(self.query),
        }
    }
}

/// What the `url` crate parses out of a text, or `None` where it is no absolute URL.
pub uninterp spec fn url_parts_of(s: Seq<char>) -> Option<UrlPartsView>;

/// What the `url` crate serialises after parsing `base` and putting `path` and `query` in it,
/// or `None` where `base` does not parse.
pub uninterp spec fn rebased_url_of(
    base: Seq<char>,
    path: Seq<char>,
    query: Option<Seq<char>>,
) -> Option<Seq<char>>;

/// Relies on `url::Url::parse` and the accessors `scheme`, `host_str`, `port`, `path` and
/// `query` of the parsed value: the result depends on the text alone.
#[verifier::external_body]
fn url_components(s: &str) -> (r: Option<UrlParts>)
    ensures
        match r {
            Some(p) => url_parts_of(s@) == Some(p@),
            None => url_parts_of(s@) is None,
        },
{
    let u = url::Url::parse(s).ok()?;
    Some(UrlParts {
        scheme: u.scheme().to_string(),
        host: u.host_str().map(str::to_string),
        port: u.port(),
        path: u.path().to_string(),
        query: u.query().map(str::to_string),
    })
}

/// Relies on `url::Url::parse`, `Url::set_path`, `Url::set_query` and the URL's serialisation:
/// the result depends on the three arguments alone.
#[verifier::external_body]
fn url_with_target(base: &str, path: &str, query: Option<&str>) -> (r: Option<String>)
    ensures
        opt_text(r) == rebased_url_of(base@, path@, opt_str(query)),
{
    let mut u = url::Url::parse(base).ok()?;
    u.set_path(path);
    u.set_query(query);
    Some(u.to_string())
}

pub open spec fn is_default_port(scheme: Seq<char>, port: u16) -> bool {
    (scheme == seq!['h', 't', 't', 'p'] && port == 80) || (scheme == seq!['h', 't', 't', 'p', 's']
        && port == 443)
}

pub open spec fn opt_or_empty(o: Option<Seq<char>>) -> Seq<char> {
    match o {
        Some(s) => s,
        None => Seq::empty(),
    }
}

/// `?query` where there is a query, else nothing.
pub open spec fn query_suffix(q: Option<Seq<char>>) -> Seq<char> {
    match q {
        Some(q) => seq!['?'] + q,
        None => Seq::empty(),
    }
}

/// The normal form of a parsed URL: scheme and host in lower case, no default port, path and
/// query as they stand.
pub open spec fn normal_form(p: UrlPartsView) -> Seq<char> {
    let scheme = lower_seq(p.scheme);
    let port = match p.port {
        Some(n) => if is_default_port(scheme, n) {
            Seq::empty()
        } else {
            seq![':'] + decimal(n as nat)
        },
        None => Seq::empty(),
    };
    scheme + seq![':', '/', '/'] + lower_seq(opt_or_empty(p.host)) + port + p.path + query_suffix(
        p.query,
    )
}

/// The form in which two `htu` values are compared: the normal form where the text parses as
/// a URL, else the text itself.
pub open spec fn normalized_htu(s: Seq<char>) -> Seq<char> {
    match url_parts_of(s) {
        Some(p) => normal_form(p),
        None => s,
    }
}

/// The request target as it appears in an HTTP request line: path, then `?query`.
pub open spec fn target_of(path: Seq<char>, query: Option<Seq<char>>) -> Seq<char> {
    path + query_suffix(query)
}

/// The absolute URI built from proxy headers: `X-Forwarded-Proto` (default `http`),
/// `X-Forwarded-Host` or else `Host` (default `localhost`), then the request target.
pub open spec fn forwarded_htu(
    proto: Option<Seq<char>>,
    forwarded_host: Option<Seq<char>>,
    host: Option<Seq<char>>,
    path: Seq<char>,
    query: Option<Seq<char>>,
) -> Seq<char> {
    let scheme = match proto {
        Some(p) => p,
        None => seq!['h', 't', 't', 'p'],
    };
    let h = match forwarded_host {
        Some(h) => h,
        None => match host {
            Some(h) => h,
            None => seq!['l', 'o', 'c', 'a', 'l', 'h', 'o', 's', 't'],
        },
    };
    scheme + seq![':', '/', '/'] + h + target_of(path, query)
}

/// The `htu` a client must have signed for this request: the configured public base URL with
/// the request's path and query where it parses, else the URI built from proxy headers.
pub open spec fn expected_htu(
    public_base_url: Option<Seq<char>>,
    proto: Option<Seq<char>>,
    forwarded_host: Option<Seq<char>>,
    host: Option<Seq<char>>,
    path: Seq<char>,
    query: Option<Seq<char>>,
) -> Seq<char> {
    let fallback = forwarded_htu(proto, forwarded_host, host, path, query);
    match public_base_url {
        Some(b) => match rebased_url_of(b, path, query) {
            Some(u) => u,
            None => fallback,
        },
        None => fallback,
    }
}

fn default_port(scheme: &str, port: u16) -> (r: bool)
    ensures
        r == is_default_port(scheme@, port),
{
    let http = "http";
    let https = "https";
    proof {
        reveal_strlit("http");
        reveal_strlit("https");
        assert(http@ =~= seq!['h', 't', 't', 'p']);
        assert(https@ =~= seq!['h', 't', 't', 'p', 's']);
    }
    (port == 80 && same_text(scheme, http)) || (port == 443 && same_text(scheme, https))
}

fn push_query(out: &mut String, query: &Option<String>)
    ensures
        final(out)@ == old(out)@ + query_suffix(opt_text(*query)),
{
    match query {
        Some(q) => {
            push_char(out, '?');
            push_str(out, q.as_str());
        },
        None => {
            assert(old(out)@ + Seq::<char>::empty() =~= old(out)@);
        },
    }
}

/// The normal form of parsed URL parts.
pub fn normalize_parts(p: &UrlParts) -> (r: String)
    ensures
        r@ == normal_form(p@),
{
    let scheme = to_ascii_lowercase(p.scheme.as_str());
    let host = match &p.host {
        Some(h) => to_ascii_lowercase(h.as_str()),
        None => String::new(),
    };
    let mut out = owned(scheme.as_str());
    push_char(&mut out, ':');
    push_char(&mut out, '/');
    push_char(&mut out, '/');
    push_str(&mut out, host.as_str());
    let ghost before_port = out@;
    match p.port {
        Some(n) => {
            if !default_port(scheme.as_str(), n) {
                push_char(&mut out, ':');
                let d = u64_text(n as u64);
                push_str(&mut out, d.as_str());
            }
        },
        None => {},
    }
    push_str(&mut out, p.path.as_str());
    push_query(&mut out, &p.query);
    proof {
        let v = p@;
        let port = match v.port {
            Some(n) => if is_default_port(lower_seq(v.scheme), n) {
                Seq::empty()
            } else {
                seq![':'] + decimal(n as nat)
            },
            None => Seq::<char>::empty(),
        };
        assert(before_port =~= lower_seq(v.scheme) + seq![':', '/', '/'] + lower_seq(
            opt_or_empty(v.host),
        ));
        assert(out@ =~= before_port + port + v.path + query_suffix(v.query));
    }
    out
}

/// The form in which `htu` values are compared (lower-case scheme and host, no default port,
/// path and query verbatim); a text that does not parse as a URL is kept as it is.
pub fn normalize_htu(htu: &str) -> (r: String)
    ensures
        r@ == normalized_htu(htu@),
{
    match url_components(htu) {
        Some(p) => normalize_parts(&p),
        None => owned(htu),
    }
}

/// The absolute URI of a request behind a proxy, from its forwarding headers.
pub fn build_htu_from_forwarded(
    proto: Option<&str>,
    forwarded_host: Option<&str>,
    host: Option<&str>,
    path: &str,
    query: Option<&str>,
) -> (r: String)
    ensures
        r@ == forwarded_htu(
            opt_str(proto),
            opt_str(forwarded_host),
            opt_str(host),
            path@,
            opt_str(query),
        ),
{
    let http = "http";
    let localhost = "localhost";
    proof {
        reveal_strlit("http");
        reveal_strlit("localhost");
        assert(http@ =~= seq!['h', 't', 't', 'p']);
        assert(localhost@ =~= seq!['l', 'o', 'c', 'a', 'l', 'h', 'o', 's', 't']);
    }
    let scheme = match proto {
        Some(p) => p,
        None => http,
    };
    let h = match forwarded_host {
        Some(h) => h,
        None => match host {
            Some(h) => h,
            None => localhost,
        },
    };
    let mut out = owned(scheme);
    push_char(&mut out, ':');
    push_char(&mut out, '/');
    push_char(&mut out, '/');
    push_str(&mut out, h);
    push_str(&mut out, path);
    let q = match query {
        Some(q) => Some(owned(q)),
        None => None,
    };
    push_query(&mut out, &q);
    proof {
        assert(opt_text(q) == opt_str(query));
        assert(out@ =~= forwarded_htu(
            opt_str(proto),
            opt_str(forwarded_host),
            opt_str(host),
            path@,
            opt_str(query),
        ));
    }
    out
}

/// The configured public base URL with the request's path and query, or `None` where the
/// base URL does not parse.
pub fn build_htu_from_base(base: &str, path: &str, query: Option<&str>) -> (r: Option<String>)
    ensures
        opt_text(r) == rebased_url_of(base@, path@, opt_str(query)),
{
    url_with_target(base, path, query)
}

/// The `htu` the request calls for.
pub fn build_expected_htu(
    public_base_url: Option<&str>,
    proto: Option<&str>,
    forwarded_host: Option<&str>,
    host: Option<&str>,
    path: &str,
    query: Option<&str>,
) -> (r: String)
    ensures
        r@ == expected_htu(
            opt_str(public_base_url),
            opt_str(proto),
            opt_str(forwarded_host),
            opt_str(host),
            path@,
            opt_str(query),
        ),
{
    if let Some(base) = public_base_url {
        if let Some(u) = build_htu_from_base(base, path, query) {
            return u;
        }
    }
    build_htu_from_forwarded(proto, forwarded_host, host, path, query)
}

/// Whether two `htu` values name the same resource once normalised.
pub fn same_htu(a: &str, b: &str) -> (r: bool)
    ensures
        r == (normalized_htu(a@) == normalized_htu(b@)),
{
    let x = normalize_htu(a);
    let y = normalize_htu(b);
    x == y
}

} // verus!
