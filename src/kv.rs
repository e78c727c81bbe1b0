//! The request builder: a key path, query options and an optional payload,
//! turned into a request ready to send.
use vstd::prelude::*;

use crate::error::KvError;

verus! {

#[verifier::external_type_specification]
#[verifier::external_body]
pub struct ExUrl(url::Url);

#[verifier::external_type_specification]
#[verifier::external_body]
pub struct ExParseError(url::ParseError);

/// The URL that a text parses to, when it is an absolute URL.
pub uninterp spec fn url_parsed(s: Seq<char>) -> Option<url::Url>;

/// The URL that a relative path resolves to against a base address, when it does.
pub uninterp spec fn url_joined(base: url::Url, path: Seq<char>) -> Option<url::Url>;

/// Relies on `url::Url::parse`: the parsed URL, or an error where the text is no
/// absolute URL.
#[verifier::external_body]
fn parse_url(s: &str) -> (r: Result<url::Url, url::ParseError>)
    ensures
        match r {
            Ok(u) => url_parsed(s@) == Some(u),
            Err(_) => url_parsed(s@) is None,
        },
{
    url::Url::parse(s)
}

/// Relies on `url::Url::join`: resolves a relative path against a base address.
#[verifier::external_body]
fn join_url(base: &url::Url, path: &str) -> (r: Result<url::Url, url::ParseError>)
    ensures
        match r {
            Ok(u) => url_joined(*base, path@) == Some(u),
            Err(_) => url_joined(*base, path@) is None,
        },
{
    base.join(path)
}

/// Where the store is reached: its base address.
#[derive(Debug)]
pub struct Client {
    url: url::Url,
}

impl Client {
    /// The base address the client reaches.
    pub closed spec fn base(&self) -> url::Url {
        self.url
    }

    /// A client for the store at `url`, which holds the URL parsed from it;
    /// fails where `url` is no absolute URL.
    pub fn new(url: &str) -> (r: Result<Client, KvError>)
        ensures
            r is Ok == url_parsed(url@) is Some,
            r matches Ok(c) ==> url_parsed(url@) == Some(c.base()),
            r matches Err(e) ==> e == KvError::Url,
    {
        match parse_url(url) {
            Ok(u) => Ok(Client { url: u }),
            Err(_) => Err(KvError::Url),
        }
    }
}

/// The query options, seen as plain values; `None` means not set.
pub struct QueryView {
    pub dc: Option<Seq<char>>,
    pub recurse: Option<bool>,
    pub raw: Option<bool>,
    pub keys: Option<bool>,
    pub separator: Option<Seq<char>>,
}

/// Options sent as query parameters. Only those that are set are sent.
pub struct KvQuery {
    dc: Option<String>,
    recurse: Option<bool>,
    raw: Option<bool>,
    keys: Option<bool>,
    separator: Option<String>,
}

pub open spec fn text_view(s: Option<String>) -> Option<Seq<char>> {
    match s {
        Some(t) => Some(t@),
        None => None,
    }
}

impl View for KvQuery {
    type V = QueryView;

    closed spec fn view(&self) -> QueryView {
        QueryView {
            dc: text_view(self.dc),
            recurse: self.recurse,
            raw: self.raw,
            keys: self.keys,
            separator: text_view(self.separator),
        }
    }
}

/// A query with no option set.
pub open spec fn no_options() -> QueryView {
    QueryView { dc: None, recurse: None, raw: None, keys: None, separator: None }
}

/// How a flag is written in a query.
pub open spec fn flag_text(b: bool) -> Seq<char> {
    if b {
        "true"@
    } else {
        "false"@
    }
}

/// The parameter `name=value`, or nothing when the option is not set.
pub open spec fn text_param(name: Seq<char>, v: Option<Seq<char>>) -> Seq<(Seq<char>, Seq<char>)> {
    match v {
        Some(t) => seq![(name, t)],
        None => seq![],
    }
}

pub open spec fn flag_param(name: Seq<char>, v: Option<bool>) -> Seq<(Seq<char>, Seq<char>)> {
    match v {
        Some(b) => seq![(name, flag_text(b))],
        None => seq![],
    }
}

/// The query parameters for a set of options, in the order `dc`, `recurse`,
/// `raw`, `keys`, `separator`, each only where it is set.
pub open spec fn query_params(q: QueryView) -> Seq<(Seq<char>, Seq<char>)> {
    text_param("dc"@, q.dc) + flag_param("recurse"@, q.recurse) + flag_param("raw"@, q.raw)
        + flag_param("keys"@, q.keys) + text_param("separator"@, q.separator)
}

/// The views of a list of name and value pairs.
pub open spec fn pairs_view(p: Seq<(String, String)>) -> Seq<(Seq<char>, Seq<char>)> {
    p.map_values(|x: (String, String)| (x.0@, x.1@))
}

fn push_text(out: &mut Vec<(String, String)>, name: &str, v: &Option<String>)
    ensures
        pairs_view(final(out)@) == pairs_view(old(out)@) + text_param(name@, text_view(*v)),
{
    let ghost before = out@;
    match v {
        Some(t) => {
            out.push((name.to_owned(), t.clone()));
        },
        None => {},
    }
    assert(pairs_view(out@) =~= pairs_view(before) + text_param(name@, text_view(*v)));
}

fn push_flag(out: &mut Vec<(String, String)>, name: &str, v: Option<bool>)
    ensures
        pairs_view(final(out)@) == pairs_view(old(out)@) + flag_param(name@, v),
{
    let ghost before = out@;
    match v {
        Some(b) => {
            let text = if b {
                "true".to_owned()
            } else {
                "false".to_owned()
            };
            out.push((name.to_owned(), text));
        },
        None => {},
    }
    assert(pairs_view(out@) =~= pairs_view(before) + flag_param(name@, v));
}

impl KvQuery {
    pub fn new() -> (r: KvQuery)
        ensures
            r@ == no_options(),
    {
        KvQuery { dc: None, recurse: None, raw: None, keys: None, separator: None }
    }

    /// The query parameters to send: one `(name, value)` pair per option that is set.
    pub fn params(&self) -> (r: Vec<(String, String)>)
        ensures
            pairs_view(r@) == query_params(self@),
    {
        let mut out: Vec<(String, String)> = Vec::new();
        assert(pairs_view(out@) =~= Seq::empty());
        push_text(&mut out, "dc", &self.dc);
        push_flag(&mut out, "recurse", self.recurse);
        push_flag(&mut out, "raw", self.raw);
        push_flag(&mut out, "keys", self.keys);
        push_text(&mut out, "separator", &self.separator);
        out
    }
}

impl Default for KvQuery {
    fn default() -> (r: KvQuery)
        ensures
            r@ == no_options(),
    {
        KvQuery::new()
    }
}


/// The path under the base address where the value of a key lives.
pub open spec fn kv_path(key: Seq<char>) -> Seq<char> {
    "v1/kv/"@ + key
}

/// A request being configured, seen as plain values.
pub struct KvView {
    pub path: Seq<char>,
    pub query: QueryView,
    pub payload: Option<serde_json::Value>,
    pub body: Option<Seq<u8>>,
}

/// A request to the store, configured step by step and used up when it is
/// prepared for sending.
pub struct Kv {
    path: String,
    query: KvQuery,
    payload: Option<serde_json::Value>,
    body: Option<Vec<u8>>,
}

pub open spec fn bytes_view(b: Option<Vec<u8>>) -> Option<Seq<u8>> {
    match b {
        Some(v) => Some(v@),
        None => None,
    }
}

impl View for Kv {
    type V = KvView;

    closed spec fn view(&self) -> KvView {
        KvView {
            path: self.path@,
            query: self.query@,
            payload: self.payload,
            body: bytes_view(self.body),
        }
    }
}

/// The HTTP method of a request.
#[derive(Debug, Clone, Copy, PartialEq, Eq, Structural)]
pub enum Method {
    Get,
    Put,
    Delete,
}

/// What a request carries as its body.
pub enum Body {
    Empty,
    /// A JSON document, sent with the JSON content type.
    Json(serde_json::Value),
    Bytes(Vec<u8>),
}

/// A request ready to send: method, full address, query parameters and body.
pub struct Request {
    pub method: Method,
    pub url: url::Url,
    pub query: Vec<(String, String)>,
    pub body: Body,
}

/// The body a configured request sends: its JSON payload where one is set,
/// else its raw bytes where they are set, else none.
pub open spec fn body_matches(b: Body, k: KvView) -> bool {
    match k.payload {
        Some(v) => b == Body::Json(v),
        None => match k.body {
            Some(bytes) => (b matches Body::Bytes(x) && x@ == bytes),
            None => b is Empty,
        },
    }
}

impl Kv {
    /// A plain request for the key path `path`, with no option and no payload.
    pub fn new(path: &str) -> (r: Kv)
        ensures
            r@ == (KvView { path: kv_path(path@), query: no_options(), payload: None, body: None }),
    {
        let mut full = "v1/kv/".to_owned();
        full.append(path);
        Kv { path: full, query: KvQuery::new(), payload: None, body: None }
    }

    /// The query options set so far.
    pub fn query(&self) -> (r: &KvQuery)
        ensures
            r@ == self@.query,
    {
        &self.query
    }

    pub fn dc(self, dc: &str) -> (r: Kv)
        ensures
            r@ == (KvView { query: QueryView { dc: Some(dc@), ..self@.query }, ..self@ }),
    {
        let mut k = self;
        k.query.dc = Some(dc.to_owned());
        k
    }

    pub fn recurse(self, value: bool) -> (r: Kv)
        ensures
            r@ == (KvView { query: QueryView { recurse: Some(value), ..self@.query }, ..self@ }),
    {
        let mut k = self;
        k.query.recurse = Some(value);
        k
    }

    pub fn raw(self, value: bool) -> (r: Kv)
        ensures
            r@ == (KvView { query: QueryView { raw: Some(value), ..self@.query }, ..self@ }),
    {
        let mut k = self;
        k.query.raw = Some(value);
        k
    }

    pub fn keys(self, value: bool) -> (r: Kv)
        ensures
            r@ == (KvView { query: QueryView { keys: Some(value), ..self@.query }, ..self@ }),
    {
        let mut k = self;
        k.query.keys = Some(value);
        k
    }

    pub fn separator(self, separator: &str) -> (r: Kv)
        ensures
            r@ == (KvView { query: QueryView { separator: Some(separator@), ..self@.query }, ..self@ }),
    {
        let mut k = self;
        k.query.separator = Some(separator.to_owned());
        k
    }

    /// Sets a JSON document to send.
    pub fn payload(self, payload: serde_json::Value) -> (r: Kv)
        ensures
            r@ == (KvView { payload: Some(payload), ..self@ }),
    {
        let mut k = self;
        k.payload = Some(payload);
        k
    }

    /// Sets raw bytes to send; a JSON payload, where one is set, takes precedence.
    pub fn body(self, body: Vec<u8>) -> (r: Kv)
        ensures
            r@ == (KvView { body: Some(body@), ..self@ }),
    {
        let mut k = self;
        k.body = Some(body);
        k
    }

    /// Applies `fun` with the value in `val` where there is one; else the
    /// request is returned unchanged.
    pub fn apply_if<T, F: FnOnce(Kv, T) -> Kv>(self, val: Option<T>, fun: F) -> (r: Kv)
        requires
            val matches Some(v) ==> fun.requires((self, v)),
        ensures
            match val {
                Some(v) => fun.ensures((self, v), r),
                None => r == self,
            },
    {
        match val {
            Some(v) => fun(self, v),
            None => self,
        }
    }

    /// The request to send with `method` to the store that `client` reaches:
    /// the path joined onto the base address, the options that are set as
    /// query parameters, and the body. Fails exactly where the join fails.
    pub fn prepare(self, method: Method, client: &Client) -> (r: Result<Request, KvError>)
        ensures
            r is Ok == url_joined(client.base(), self@.path) is Some,
            match r {
                Ok(req) => {
                    &&& url_joined(client.base(), self@.path) == Some(req.url)
                    &&& req.method == method
                    &&& pairs_view(req.query@) == query_params(self@.query)
                    &&& body_matches(req.body, self@)
                },
                Err(e) => e == KvError::Url,
            },
    {
        let url = match join_url(&client.url, self.path.as_str()) {
            Ok(u) => u,
            Err(_) => return Err(KvError::Url),
        };
        let query = self.query.params();
        let body = match self.payload {
            Some(v) => Body::Json(v),
            None => match self.body {
                Some(b) => Body::Bytes(b),
                None => Body::Empty,
            },
        };
        Ok(Request { method, url, query, body })
    }

    /// The request that lists every record under the key path: a GET with
    /// `recurse` set to true, whatever it was set to before.
    pub fn list_request(self, client: &Client) -> (r: Result<Request, KvError>)
        ensures
            r is Ok == url_joined(client.base(), self@.path) is Some,
            match r {
                Ok(req) => {
                    &&& url_joined(client.base(), self@.path) == Some(req.url)
                    &&& req.method == Method::Get
                    &&& pairs_view(req.query@) == query_params(
                        QueryView { recurse: Some(true), ..self@.query },
                    )
                    &&& body_matches(req.body, self@)
                },
                Err(e) => e == KvError::Url,
            },
    {
        self.recurse(true).prepare(Method::Get, client)
    }
}

} // verus!
