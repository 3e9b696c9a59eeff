//! The parts of a URL, as the `URL` class of a script reads and changes them.
//!
//! Parsing and serialising is the work of the `url` crate. What is decided here is which part of
//! a URL a script means, and what of its new value the part takes.

use url::Url;
use vstd::prelude::*;
use vstd::utf8::*;

use crate::text::{
    after_last, chars_of, concat2, concat3, decimal, decimal_text, find_after_last, find_from,
    first_from, parse_u16, str_eq, strip_prefix, u16_of,
};

verus! {

/// The URL type of the `url` crate. What can be read from a URL is named by [`url_fields`].
#[verifier::external_type_specification]
#[verifier::external_body]
pub struct ExUrl(Url);

/// What can be read from a URL.
pub struct UrlFields {
    /// The URL itself.
    pub href: String,
    pub scheme: String,
    pub username: String,
    pub password: Option<String>,
    pub host: Option<String>,
    pub port: Option<u16>,
    pub path: String,
    pub query: Option<String>,
    pub fragment: Option<String>,
    /// Whether the URL has no hierarchy, as one of the scheme `mailto`.
    pub cannot_be_a_base: bool,
}

/// What can be read from a URL.
pub struct UrlFieldsView {
    pub href: Seq<char>,
    pub scheme: Seq<char>,
    pub username: Seq<char>,
    pub password: Option<Seq<char>>,
    pub host: Option<Seq<char>>,
    pub port: Option<u16>,
    pub path: Seq<char>,
    pub query: Option<Seq<char>>,
    pub fragment: Option<Seq<char>>,
    pub cannot_be_a_base: bool,
}

/// The characters of a text, where there is one.
pub open spec fn text_view(s: Option<String>) -> Option<Seq<char>> {
    match s {
        Some(t) => Some(t@),
        None => None,
    }
}

impl View for UrlFields {
    type V = UrlFieldsView;

    open spec fn view(&self) -> UrlFieldsView {
        UrlFieldsView {
            href: self.href@,
            scheme: self.scheme@,
            username: self.username@,
            password: text_view(self.password),
            host: text_view(self.host),
            port: self.port,
            path: self.path@,
            query: text_view(self.query),
            fragment: text_view(self.fragment),
            cannot_be_a_base: self.cannot_be_a_base,
        }
    }
}

/// What can be read from a URL.
pub uninterp spec fn url_fields(u: Url) -> UrlFieldsView;

/// The origin of a URL whose scheme is not `blob`, as text.
pub uninterp spec fn url_origin(u: Url) -> Seq<char>;

/// The URL that a text is.
pub uninterp spec fn url_parsed(s: Seq<char>) -> Option<Url>;

/// The URL that a text is, seen from another.
pub uninterp spec fn url_joined(base: Url, s: Seq<char>) -> Option<Url>;

/// A URL after an attempt to change its scheme.
pub uninterp spec fn url_with_scheme(u: Url, scheme: Seq<char>) -> Url;

/// A URL after an attempt to change its user name.
pub uninterp spec fn url_with_username(u: Url, name: Seq<char>) -> Url;

/// A URL after an attempt to change its password.
pub uninterp spec fn url_with_password(u: Url, password: Option<Seq<char>>) -> Url;

/// A URL after an attempt to change its host, and whether it succeeded.
pub uninterp spec fn url_with_host(u: Url, host: Seq<char>) -> (Url, bool);

/// A URL after an attempt to change its port.
pub uninterp spec fn url_with_port(u: Url, port: Option<u16>) -> Url;

/// A URL after its path was changed.
pub uninterp spec fn url_with_path(u: Url, path: Seq<char>) -> Url;

/// A URL after its query was changed.
pub uninterp spec fn url_with_query(u: Url, query: Option<Seq<char>>) -> Url;

/// A URL after its fragment was changed.
pub uninterp spec fn url_with_fragment(u: Url, fragment: Option<Seq<char>>) -> Url;

/// Whether a URL can grow by `n` bytes: the `url` crate counts the bytes of a URL in thirty-two
/// bits, and its setters panic where they do not suffice.
pub open spec fn room(u: Url, n: int) -> bool {
    encode_utf8(url_fields(u).href).len() + n <= u32::MAX
}

/// How many bytes a text has.
pub open spec fn size(s: Seq<char>) -> int {
    encode_utf8(s).len() as int
}

/// Calls `as_str`, `scheme`, `username`, `password`, `host_str`, `port`, `path`, `query`,
/// `fragment` and `cannot_be_a_base` of `Url`; what they return is named [`url_fields`].
#[verifier::external_body]
fn read_url(u: &Url) -> (r: UrlFields)
    ensures
        r@ == url_fields(*u),
{
    UrlFields {
        href: u.as_str().to_string(),
        scheme: u.scheme().to_string(),
        username: u.username().to_string(),
        password: u.password().map(str::to_string),
        host: u.host_str().map(str::to_string),
        port: u.port(),
        path: u.path().to_string(),
        query: u.query().map(str::to_string),
        fragment: u.fragment().map(str::to_string),
        cannot_be_a_base: u.cannot_be_a_base(),
    }
}

/// Calls `Url::origin` and `ascii_serialization` on the result, which is named [`url_origin`]. For
/// a URL of the scheme `blob` the call parses the path and calls itself, once for each URL in
/// another; such a URL is left out, for a long one would use up the stack.
#[verifier::external_body]
fn url_crate_origin(u: &Url) -> (r: String)
    requires
        url_fields(*u).scheme != "blob"@,
    ensures
        r@ == url_origin(*u),
{
    u.origin().ascii_serialization()
}

/// Calls `Url::parse`; the result is named [`url_parsed`].
#[verifier::external_body]
fn url_crate_parse(s: &str) -> (r: Option<Url>)
    ensures
        r == url_parsed(s@),
{
    Url::parse(s).ok()
}

/// Calls `Url::join`; the result is named [`url_joined`].
#[verifier::external_body]
fn url_crate_join(base: &Url, s: &str) -> (r: Option<Url>)
    ensures
        r == url_joined(*base, s@),
{
    base.join(s).ok()
}

/// Calls `Url::set_scheme`; the URL afterwards is named [`url_with_scheme`]. A scheme is taken as
/// it is.
#[verifier::external_body]
fn url_crate_set_scheme(u: &mut Url, scheme: &str)
    requires
        room(*old(u), size(scheme@)),
    ensures
        *final(u) == url_with_scheme(*old(u), scheme@),
{
    let _ = u.set_scheme(scheme);
}

/// Calls `Url::set_username`; the URL afterwards is named [`url_with_username`]. A byte that is
/// escaped becomes three, and an `@` may follow.
#[verifier::external_body]
fn url_crate_set_username(u: &mut Url, name: &str)
    requires
        room(*old(u), 3 * size(name@) + 1),
    ensures
        *final(u) == url_with_username(*old(u), name@),
{
    let _ = u.set_username(name);
}

/// The characters of a text, where there is one.
pub open spec fn str_view(s: Option<&str>) -> Option<Seq<char>> {
    match s {
        Some(t) => Some(t@),
        None => None,
    }
}

/// The characters of a text, or none.
pub open spec fn or_empty(s: Option<Seq<char>>) -> Seq<char> {
    match s {
        Some(t) => t,
        None => Seq::empty(),
    }
}

/// Calls `Url::set_password`; the URL afterwards is named [`url_with_password`]. A byte that is
/// escaped becomes three, and a colon and an `@` stand around them; without a password the URL
/// does not grow.
#[verifier::external_body]
fn url_crate_set_password(u: &mut Url, password: Option<&str>)
    requires
        password matches Some(p) ==> room(*old(u), 3 * size(p@) + 2),
    ensures
        *final(u) == url_with_password(*old(u), str_view(password)),
{
    let _ = u.set_password(password);
}

/// Calls `Url::set_host`; the URL afterwards, and whether the call succeeded, is named
/// [`url_with_host`]. A host in letters beyond ASCII is mapped and encoded, which makes sixteen
/// bytes of one at the most, and an address may be written out; a URL without a hierarchy has no
/// host and stays as it is.
#[verifier::external_body]
fn url_crate_set_host(u: &mut Url, host: &str) -> (r: bool)
    requires
        !url_fields(*old(u)).cannot_be_a_base ==> room(*old(u), 16 * size(host@) + 64),
    ensures
        (*final(u), r) == url_with_host(*old(u), host@),
{
    u.set_host(Some(host)).is_ok()
}

/// Calls `Url::set_port`; the URL afterwards is named [`url_with_port`]. A port takes up to six
/// bytes, with its colon; without one the URL does not grow.
#[verifier::external_body]
fn url_crate_set_port(u: &mut Url, port: Option<u16>)
    requires
        port is Some ==> room(*old(u), 6),
    ensures
        *final(u) == url_with_port(*old(u), port),
{
    let _ = u.set_port(port);
}

/// Calls `Url::set_path`; the URL afterwards is named [`url_with_path`]. A byte that is escaped
/// becomes three, and a slash may stand before them.
#[verifier::external_body]
fn url_crate_set_path(u: &mut Url, path: &str)
    requires
        room(*old(u), 3 * size(path@) + 3),
    ensures
        *final(u) == url_with_path(*old(u), path@),
{
    u.set_path(path);
}

/// Calls `Url::set_query`; the URL afterwards is named [`url_with_query`]. A byte that is escaped
/// becomes three, with a question mark before them; without a query the URL does not grow.
#[verifier::external_body]
fn url_crate_set_query(u: &mut Url, query: Option<&str>)
    requires
        query matches Some(q) ==> room(*old(u), 3 * size(q@) + 1),
    ensures
        *final(u) == url_with_query(*old(u), str_view(query)),
{
    u.set_query(query);
}

/// Calls `Url::set_fragment`; the URL afterwards is named [`url_with_fragment`]. Only where the
/// fragment begins is counted, not where it ends.
#[verifier::external_body]
fn url_crate_set_fragment(u: &mut Url, fragment: Option<&str>)
    requires
        fragment is Some ==> room(*old(u), 0),
    ensures
        *final(u) == url_with_fragment(*old(u), str_view(fragment)),
{
    u.set_fragment(fragment);
}

/// The parts of a URL that a script reads.
#[derive(Debug)]
pub struct UrlParts {
    pub href: String,
    pub origin: String,
    pub protocol: String,
    pub username: String,
    pub password: String,
    pub host: String,
    pub hostname: String,
    pub port: String,
    pub pathname: String,
    pub search: String,
    pub hash: String,
}

/// The parts of a URL that a script reads.
pub struct UrlPartsView {
    pub href: Seq<char>,
    pub origin: Seq<char>,
    pub protocol: Seq<char>,
    pub username: Seq<char>,
    pub password: Seq<char>,
    pub host: Seq<char>,
    pub hostname: Seq<char>,
    pub port: Seq<char>,
    pub pathname: Seq<char>,
    pub search: Seq<char>,
    pub hash: Seq<char>,
}

impl View for UrlParts {
    type V = UrlPartsView;

    open spec fn view(&self) -> UrlPartsView {
        UrlPartsView {
            href: self.href@,
            origin: self.origin@,
            protocol: self.protocol@,
            username: self.username@,
            password: self.password@,
            host: self.host@,
            hostname: self.hostname@,
            port: self.port@,
            pathname: self.pathname@,
            search: self.search@,
            hash: self.hash@,
        }
    }
}

/// A text behind a mark; without a text, or with an empty one, nothing.
pub open spec fn marked(mark: Seq<char>, s: Option<Seq<char>>) -> Seq<char> {
    match s {
        Some(t) => if t.len() == 0 {
            Seq::empty()
        } else {
            mark + t
        },
        None => Seq::empty(),
    }
}

/// The origin of a URL in which at most `depth` others are nested: that of the innermost URL where
/// the scheme is `blob`, and `null` where the path of such a URL is none.
pub open spec fn nested_origin(u: Url, depth: nat) -> Seq<char>
    decreases depth,
{
    if url_fields(u).scheme != "blob"@ {
        url_origin(u)
    } else {
        match url_parsed(url_fields(u).path) {
            Some(inner) if depth > 0 => nested_origin(inner, (depth - 1) as nat),
            _ => "null"@,
        }
    }
}

/// The origin of a URL. A path holds no more nested URLs than it has characters.
pub open spec fn origin_of(u: Url) -> Seq<char> {
    nested_origin(u, url_fields(u).path.len())
}

/// The origin of a URL.
fn read_origin(u: &Url) -> (r: String)
    ensures
        r@ == origin_of(*u),
{
    let mut f = read_url(u);
    if !str_eq(f.scheme.as_str(), "blob") {
        return url_crate_origin(u);
    }
    let mut depth: usize = f.path.as_str().unicode_len();
    let ghost mut at = *u;
    loop
        invariant
            f@ == url_fields(at),
            f@.scheme == "blob"@,
            nested_origin(at, depth as nat) == origin_of(*u),
        decreases depth,
    {
        let inner = match url_crate_parse(f.path.as_str()) {
            Some(inner) => inner,
            None => {
                return "null".to_string();
            },
        };
        if depth == 0 {
            return "null".to_string();
        }
        depth = depth - 1;
        f = read_url(&inner);
        proof {
            assert(nested_origin(at, (depth + 1) as nat) == nested_origin(inner, depth as nat));
            at = inner;
        }
        assert(f@.scheme != "blob"@ ==> nested_origin(at, depth as nat) == url_origin(inner));
        if !str_eq(f.scheme.as_str(), "blob") {
            return url_crate_origin(&inner);
        }
    }
}

/// The parts of a URL that a script reads.
pub open spec fn parts_of(f: UrlFieldsView, origin: Seq<char>) -> UrlPartsView {
    let hostname = or_empty(f.host);
    let port = match f.port {
        Some(p) => decimal(p as nat),
        None => Seq::empty(),
    };
    UrlPartsView {
        href: f.href,
        origin,
        protocol: f.scheme + ":"@,
        username: f.username,
        password: or_empty(f.password),
        host: if f.port is None {
            hostname
        } else {
            hostname + ":"@ + port
        },
        hostname,
        port,
        pathname: f.path,
        search: marked("?"@, f.query),
        hash: marked("#"@, f.fragment),
    }
}

/// The parts of a URL that a script reads.
pub open spec fn read_parts(u: Url) -> UrlPartsView {
    parts_of(url_fields(u), origin_of(u))
}

/// A text behind a mark; without a text, or with an empty one, nothing.
fn with_mark(mark: &str, s: Option<String>) -> (r: String)
    ensures
        r@ == marked(mark@, text_view(s)),
{
    match s {
        Some(t) => if t.as_str().is_empty() {
            String::new()
        } else {
            concat2(mark, t.as_str())
        },
        None => String::new(),
    }
}

/// A text, or an empty one.
fn text_or_empty(s: Option<String>) -> (r: String)
    ensures
        r@ == or_empty(text_view(s)),
{
    match s {
        Some(t) => t,
        None => String::new(),
    }
}

impl UrlParts {
    /// The parts of a URL from what can be read from it, and its origin.
    pub fn of_fields(f: UrlFields, origin: String) -> (r: Self)
        ensures
            r@ == parts_of(f@, origin@),
    {
        let hostname = text_or_empty(f.host);
        let (host, port) = match f.port {
            Some(p) => {
                let port = decimal_text(p as u64);
                (concat3(hostname.as_str(), ":", port.as_str()), port)
            },
            None => (hostname.clone(), String::new()),
        };
        UrlParts {
            href: f.href,
            origin,
            protocol: concat2(f.scheme.as_str(), ":"),
            username: f.username,
            password: text_or_empty(f.password),
            host,
            hostname,
            port,
            pathname: f.path,
            search: with_mark("?", f.query),
            hash: with_mark("#", f.fragment),
        }
    }

    /// The parts of a URL.
    pub fn of(u: &Url) -> (r: Self)
        ensures
            r@ == read_parts(*u),
    {
        UrlParts::of_fields(read_url(u), read_origin(u))
    }
}

/// The URL that a text is, seen from another where there is one.
pub open spec fn resolved(input: Seq<char>, base: Option<Seq<char>>) -> Option<Url> {
    match base {
        Some(b) => match url_parsed(b) {
            Some(u) => url_joined(u, input),
            None => None,
        },
        None => url_parsed(input),
    }
}

/// The URL that a text is, seen from another where there is one.
pub fn parse_url(input: &str, base: Option<&str>) -> (r: Option<Url>)
    ensures
        r == resolved(input@, str_view(base)),
{
    match base {
        Some(b) => match url_crate_parse(b) {
            Some(u) => url_crate_join(&u, input),
            None => None,
        },
        None => url_crate_parse(input),
    }
}

/// A script parses a URL. Gives nothing where there is none.
pub fn url_parse(input: String, base: Option<String>) -> (r: Option<UrlParts>)
    ensures
        match resolved(input@, text_view(base)) {
            Some(u) => r matches Some(p) && p@ == read_parts(u),
            None => r is None,
        },
{
    let url = match &base {
        Some(b) => parse_url(input.as_str(), Some(b.as_str())),
        None => parse_url(input.as_str(), None),
    };
    match url {
        Some(u) => Some(UrlParts::of(&u)),
        None => None,
    }
}

/// Where the host of `value` ends and its port begins: the first colon behind the last closing
/// bracket, for the colons of an IPv6 address stand in brackets.
pub open spec fn port_colon(value: Seq<char>) -> int {
    first_from(value, ':', after_last(value, ']', value.len() as int))
}

/// The host name in `value`.
pub open spec fn host_in(value: Seq<char>) -> Seq<char> {
    value.take(port_colon(value))
}

/// The port in `value`, where there is one that is a number.
pub open spec fn port_in(value: Seq<char>) -> Option<u16> {
    if port_colon(value) < value.len() {
        u16_of(value.skip(port_colon(value) + 1))
    } else {
        None
    }
}

/// `value` without a leading mark.
pub open spec fn unmarked(mark: char, value: Seq<char>) -> Seq<char> {
    if value.len() > 0 && value[0] == mark {
        value.skip(1)
    } else {
        value
    }
}

/// `value`, or nothing where it is empty.
pub open spec fn non_empty(value: Seq<char>) -> Option<Seq<char>> {
    if value.len() == 0 {
        None
    } else {
        Some(value)
    }
}

/// A URL with a new value for one of its parts. A value that a part cannot take changes nothing,
/// and neither does a part that does not exist.
pub open spec fn changed(u: Url, part: Seq<char>, value: Seq<char>) -> Url {
    if part == "protocol"@ {
        url_with_scheme(u, value.take(first_from(value, ':', 0)))
    } else if part == "username"@ {
        url_with_username(u, value)
    } else if part == "password"@ {
        url_with_password(u, non_empty(value))
    } else if part == "host"@ {
        let (v, ok) = url_with_host(u, host_in(value));
        if ok && port_in(value) is Some {
            url_with_port(v, port_in(value))
        } else {
            v
        }
    } else if part == "hostname"@ {
        url_with_host(u, value).0
    } else if part == "port"@ {
        if value.len() == 0 {
            url_with_port(u, None)
        } else if u16_of(value) is Some {
            url_with_port(u, u16_of(value))
        } else {
            u
        }
    } else if part == "pathname"@ {
        if url_fields(u).cannot_be_a_base {
            u
        } else {
            url_with_path(u, value)
        }
    } else if part == "search"@ {
        url_with_query(u, non_empty(unmarked('?', value)))
    } else if part == "hash"@ {
        url_with_fragment(u, non_empty(unmarked('#', value)))
    } else {
        u
    }
}

/// Whether a URL has room for a new host.
pub open spec fn has_host_room(u: Url, host: Seq<char>) -> bool {
    url_fields(u).cannot_be_a_base || room(u, 16 * size(host) + 64)
}

/// Whether a URL can take a new value for one of its parts without growing too large.
pub open spec fn can_change(u: Url, part: Seq<char>, value: Seq<char>) -> bool {
    if part == "protocol"@ {
        room(u, size(value.take(first_from(value, ':', 0))))
    } else if part == "username"@ {
        room(u, 3 * size(value) + 1)
    } else if part == "password"@ {
        value.len() == 0 || room(u, 3 * size(value) + 2)
    } else if part == "host"@ {
        &&& has_host_room(u, host_in(value))
        &&& url_with_host(u, host_in(value)).1 && port_in(value) is Some ==> room(
            url_with_host(u, host_in(value)).0,
            6,
        )
    } else if part == "hostname"@ {
        has_host_room(u, value)
    } else if part == "port"@ {
        value.len() == 0 || u16_of(value) is None || room(u, 6)
    } else if part == "pathname"@ {
        url_fields(u).cannot_be_a_base || room(u, 3 * size(value) + 3)
    } else if part == "search"@ {
        non_empty(unmarked('?', value)) matches Some(q) ==> room(u, 3 * size(q) + 1)
    } else if part == "hash"@ {
        non_empty(unmarked('#', value)) is Some ==> room(u, 0)
    } else {
        true
    }
}

/// Whether a URL can grow by `factor` times the bytes of a text and `more`.
fn has_room(u: &Url, factor: u32, value: &str, more: u32) -> (r: bool)
    requires
        factor <= 16,
    ensures
        r == room(*u, factor * size(value@) + more),
{
    let href = read_url(u).href;
    let now: u128 = href.as_str().as_bytes().len() as u128;
    let len: u128 = value.as_bytes().len() as u128;
    proof {
        assert(factor * len <= 16 * len) by (nonlinear_arith)
            requires
                factor <= 16,
        ;
    }
    now + (factor as u128) * len + (more as u128) <= u32::MAX as u128
}

/// Whether a URL has room for a new host.
fn takes_host(u: &Url, host: &str) -> (r: bool)
    ensures
        r == has_host_room(*u, host@),
{
    read_url(u).cannot_be_a_base || has_room(u, 16, host, 64)
}

/// Gives one of the parts of a URL a new value where the URL has room for it; says whether it
/// has.
fn try_url_part(u: &mut Url, part: &str, value: &str) -> (fits: bool)
    ensures
        fits == can_change(*old(u), part@, value@),
        fits ==> *final(u) == changed(*old(u), part@, value@),
{
    let c = chars_of(value);
    let len: usize = value.unicode_len();
    proof {
        reveal_strlit("?");
        reveal_strlit("#");
    }
    if str_eq(part, "protocol") {
        let colon: usize = find_from(&c, ':', 0);
        let scheme = value.substring_char(0, colon);
        assert(scheme@ =~= value@.take(colon as int));
        if !has_room(u, 1, scheme, 0) {
            return false;
        }
        url_crate_set_scheme(u, scheme);
    } else if str_eq(part, "username") {
        if !has_room(u, 3, value, 1) {
            return false;
        }
        url_crate_set_username(u, value);
    } else if str_eq(part, "password") {
        if value.is_empty() {
            url_crate_set_password(u, None);
        } else {
            if !has_room(u, 3, value, 2) {
                return false;
            }
            url_crate_set_password(u, Some(value));
        }
    } else if str_eq(part, "host") {
        let host_end: usize = find_after_last(&c, ']');
        let colon: usize = find_from(&c, ':', host_end);
        let host = value.substring_char(0, colon);
        assert(host@ =~= host_in(value@));
        if !takes_host(u, host) {
            return false;
        }
        let ok = url_crate_set_host(u, host);
        if ok && colon < len {
            let port = value.substring_char(colon + 1, len);
            assert(port@ =~= value@.skip(colon + 1));
            if let Some(p) = parse_u16(port) {
                if !has_room(u, 0, "", 6) {
                    return false;
                }
                url_crate_set_port(u, Some(p));
            }
        }
    } else if str_eq(part, "hostname") {
        if !takes_host(u, value) {
            return false;
        }
        let _ok = url_crate_set_host(u, value);
    } else if str_eq(part, "port") {
        if value.is_empty() {
            url_crate_set_port(u, None);
        } else if let Some(p) = parse_u16(value) {
            if !has_room(u, 0, "", 6) {
                return false;
            }
            url_crate_set_port(u, Some(p));
        }
    } else if str_eq(part, "pathname") {
        if !read_url(u).cannot_be_a_base {
            if !has_room(u, 3, value, 3) {
                return false;
            }
            url_crate_set_path(u, value);
        }
    } else if str_eq(part, "search") {
        let query = without_mark(value, "?");
        if query.is_empty() {
            url_crate_set_query(u, None);
        } else {
            if !has_room(u, 3, query, 1) {
                return false;
            }
            url_crate_set_query(u, Some(query));
        }
    } else if str_eq(part, "hash") {
        let fragment = without_mark(value, "#");
        if fragment.is_empty() {
            url_crate_set_fragment(u, None);
        } else {
            if !has_room(u, 0, "", 0) {
                return false;
            }
            url_crate_set_fragment(u, Some(fragment));
        }
    }
    true
}

/// Gives one of the parts of a URL a new value. A value that cannot be applied changes nothing.
pub fn apply_url_part(u: &mut Url, part: &str, value: &str)
    requires
        can_change(*old(u), part@, value@),
    ensures
        *final(u) == changed(*old(u), part@, value@),
{
    let _fits = try_url_part(u, part, value);
}

/// `value` without a leading mark.
fn without_mark<'a>(value: &'a str, mark: &str) -> (r: &'a str)
    requires
        mark@.len() == 1,
    ensures
        r@ == unmarked(mark@[0], value@),
{
    match strip_prefix(value, mark) {
        Some(rest) => {
            assert(rest@ =~= value@.skip(1));
            rest
        },
        None => {
            proof {
                if value@.len() > 0 && value@[0] == mark@[0] {
                    assert(mark@.is_prefix_of(value@));
                }
            }
            value
        },
    }
}

/// A script gives one of the parts of a URL a new value, and reads its parts. Gives nothing
/// where there is no URL, or where it would grow too large.
pub fn url_update(href: String, part: String, value: String) -> (r: Option<UrlParts>)
    ensures
        match url_parsed(href@) {
            Some(u) => if can_change(u, part@, value@) {
                r matches Some(p) && p@ == read_parts(changed(u, part@, value@))
            } else {
                r is None
            },
            None => r is None,
        },
{
    let mut u = match parse_url(href.as_str(), None) {
        Some(u) => u,
        None => {
            return None;
        },
    };
    if !try_url_part(&mut u, part.as_str(), value.as_str()) {
        return None;
    }
    Some(UrlParts::of(&u))
}

/// The host and the port of a URL are its `host`: joined by a colon where there is a port that
/// the scheme does not imply, the host name alone where there is none.
pub proof fn host_is_hostname_and_port(f: UrlFieldsView, origin: Seq<char>)
    ensures
        ({
            let parts = parts_of(f, origin);
            parts.host == (if parts.port.len() == 0 {
                parts.hostname
            } else {
                parts.hostname + ":"@ + parts.port
            })
        }),
{
    if f.port is Some {
        crate::text::decimal_reads_back(f.port->0 as nat);
    }
}

/// The parts that a script can change.
pub open spec fn is_part(part: Seq<char>) -> bool {
    ||| part == "protocol"@
    ||| part == "username"@
    ||| part == "password"@
    ||| part == "host"@
    ||| part == "hostname"@
    ||| part == "port"@
    ||| part == "pathname"@
    ||| part == "search"@
    ||| part == "hash"@
}

/// A value that cannot be applied is ignored, however long it is: one for a part that does not
/// exist, a port that is no number, and the path of a URL without a hierarchy.
pub proof fn inapplicable_value_changes_nothing(u: Url, part: Seq<char>, value: Seq<char>)
    requires
        !is_part(part) || (part == "port"@ && value.len() > 0 && u16_of(value) is None) || (part
            == "pathname"@ && url_fields(u).cannot_be_a_base),
    ensures
        can_change(u, part, value),
        changed(u, part, value) == u,
{
    parts_are_distinct();
}

/// No two parts that a script can change have one name.
proof fn parts_are_distinct()
    ensures
        "username"@ != "protocol"@,
        "password"@ != "protocol"@,
        "password"@ != "username"@,
        "host"@ != "protocol"@,
        "host"@ != "username"@,
        "host"@ != "password"@,
        "hostname"@ != "protocol"@,
        "hostname"@ != "username"@,
        "hostname"@ != "password"@,
        "hostname"@ != "host"@,
        "port"@ != "protocol"@,
        "port"@ != "username"@,
        "port"@ != "password"@,
        "port"@ != "host"@,
        "port"@ != "hostname"@,
        "pathname"@ != "protocol"@,
        "pathname"@ != "username"@,
        "pathname"@ != "password"@,
        "pathname"@ != "host"@,
        "pathname"@ != "hostname"@,
        "pathname"@ != "port"@,
        "search"@ != "protocol"@,
        "search"@ != "username"@,
        "search"@ != "password"@,
        "search"@ != "host"@,
        "search"@ != "hostname"@,
        "search"@ != "port"@,
        "search"@ != "pathname"@,
        "hash"@ != "protocol"@,
        "hash"@ != "username"@,
        "hash"@ != "password"@,
        "hash"@ != "host"@,
        "hash"@ != "hostname"@,
        "hash"@ != "port"@,
        "hash"@ != "pathname"@,
        "hash"@ != "search"@,
{
    reveal_strlit("protocol");
    reveal_strlit("username");
    reveal_strlit("password");
    reveal_strlit("host");
    reveal_strlit("hostname");
    reveal_strlit("port");
    reveal_strlit("pathname");
    reveal_strlit("search");
    reveal_strlit("hash");
    assert("protocol"@.len() == 8 && "username"@.len() == 8 && "password"@.len() == 8 && "host"@.len() == 4 && "hostname"@.len() == 8);
    assert("port"@.len() == 4 && "pathname"@.len() == 8 && "search"@.len() == 6 && "hash"@.len() == 4);
    assert("protocol"@[1] == 'r' && "username"@[0] == 'u' && "hostname"@[0] == 'h');
    assert("password"@[2] == 's' && "password"@[1] == 'a' && "password"@[0] == 'p');
    assert("pathname"@[2] == 't' && "pathname"@[1] == 'a' && "pathname"@[0] == 'p');
    assert("protocol"@[0] == 'p' && "port"@[0] == 'p' && "host"@[0] == 'h' && "hash"@[0] == 'h');
    assert("host"@[1] == 'o' && "hash"@[1] == 'a');
}

/// What comes behind the host name in `value` is its port, colons of an IPv6 address apart.
pub proof fn host_splits_at_port(name: Seq<char>, port: Seq<char>)
    requires
        name.len() > 0,
        name.last() == ']',
        !port.contains(']'),
    ensures
        host_in(name + ":"@ + port) == name,
        port_in(name + ":"@ + port) == u16_of(port),
{
    reveal_strlit(":");
    let value = name + ":"@ + port;
    last_bracket(value, name.len() as int, value.len() as int);
    assert(value[name.len() as int] == ':');
    assert(port_colon(value) == name.len());
    assert(value.take(name.len() as int) =~= name);
    assert(value.skip(name.len() as int + 1) =~= port);
}

/// The last bracket is where no bracket follows.
proof fn last_bracket(value: Seq<char>, end: int, to: int)
    requires
        0 < end <= to <= value.len(),
        value[end - 1] == ']',
        forall|i: int| end <= i < to ==> value[i] != ']',
    ensures
        after_last(value, ']', to) == end,
    decreases to,
{
    if to > end {
        last_bracket(value, end, to - 1);
    }
}

/// A query may be given with its question mark or without: a text that is not empty and does not
/// begin with the mark becomes the query either way. Likewise a fragment and its number sign.
pub proof fn marks_may_be_left_out(u: Url, q: Seq<char>)
    requires
        q.len() > 0,
    ensures
        q[0] != '?' ==> changed(u, "search"@, q) == url_with_query(u, Some(q)),
        changed(u, "search"@, "?"@ + q) == url_with_query(u, Some(q)),
        q[0] != '#' ==> changed(u, "hash"@, q) == url_with_fragment(u, Some(q)),
        changed(u, "hash"@, "#"@ + q) == url_with_fragment(u, Some(q)),
{
    parts_are_distinct();
    reveal_strlit("?");
    reveal_strlit("#");
    assert(("?"@ + q).skip(1) =~= q);
    assert(("#"@ + q).skip(1) =~= q);
}

/// An empty text, and a mark alone, take the query or the fragment away; an empty text also the
/// password and the port.
pub proof fn empty_values_take_parts_away(u: Url)
    ensures
        changed(u, "search"@, Seq::empty()) == url_with_query(u, None),
        changed(u, "search"@, "?"@) == url_with_query(u, None),
        changed(u, "hash"@, Seq::empty()) == url_with_fragment(u, None),
        changed(u, "hash"@, "#"@) == url_with_fragment(u, None),
        changed(u, "password"@, Seq::empty()) == url_with_password(u, None),
        changed(u, "port"@, Seq::empty()) == url_with_port(u, None),
        can_change(u, "search"@, Seq::empty()),
        can_change(u, "search"@, "?"@),
        can_change(u, "hash"@, Seq::empty()),
        can_change(u, "hash"@, "#"@),
        can_change(u, "password"@, Seq::empty()),
        can_change(u, "port"@, Seq::empty()),
{
    parts_are_distinct();
    reveal_strlit("?");
    reveal_strlit("#");
    assert("?"@.skip(1) =~= Seq::empty());
    assert("#"@.skip(1) =~= Seq::empty());
}

/// What a script reads as the search and the hash of a URL it can write back: the query and the
/// fragment are then what they are, or gone where they are empty.
pub proof fn read_marks_can_be_written_back(u: Url)
    ensures
        ({
            let f = url_fields(u);
            let parts = read_parts(u);
            &&& f.query is Some && f.query->0.len() > 0 ==> changed(u, "search"@, parts.search)
                == url_with_query(u, f.query)
            &&& f.query is None || f.query->0.len() == 0 ==> changed(u, "search"@, parts.search)
                == url_with_query(u, None)
            &&& f.fragment is Some && f.fragment->0.len() > 0 ==> changed(u, "hash"@, parts.hash)
                == url_with_fragment(u, f.fragment)
            &&& f.fragment is None || f.fragment->0.len() == 0 ==> changed(u, "hash"@, parts.hash)
                == url_with_fragment(u, None)
        }),
{
    let f = url_fields(u);
    if f.query is Some && f.query->0.len() > 0 {
        marks_may_be_left_out(u, f.query->0);
    }
    if f.fragment is Some && f.fragment->0.len() > 0 {
        marks_may_be_left_out(u, f.fragment->0);
    }
    empty_values_take_parts_away(u);
}

/// A scheme may be given with a colon behind it or without, and nothing behind the colon counts.
pub proof fn scheme_ends_at_its_colon(u: Url, scheme: Seq<char>, rest: Seq<char>)
    requires
        !scheme.contains(':'),
    ensures
        changed(u, "protocol"@, scheme) == url_with_scheme(u, scheme),
        changed(u, "protocol"@, scheme + ":"@ + rest) == url_with_scheme(u, scheme),
{
    reveal_strlit(":");
    let value = scheme + ":"@ + rest;
    crate::text::first_from_is_the_first(scheme, ':', 0);
    crate::text::first_from_is_the_first(value, ':', 0);
    let n = first_from(value, ':', 0);
    assert(value[scheme.len() as int] == ':');
    if n < scheme.len() {
        assert(scheme[n] == ':');
    }
    let m = first_from(scheme, ':', 0);
    assert(m == scheme.len());
    assert(value.take(n) =~= scheme);
    assert(scheme.take(m) =~= scheme);
}

/// A user name, a password that is not empty, a host name, and the path of a URL with a hierarchy
/// are taken as they are given.
pub proof fn plain_values_are_taken_as_given(u: Url, value: Seq<char>)
    ensures
        changed(u, "username"@, value) == url_with_username(u, value),
        value.len() > 0 ==> changed(u, "password"@, value) == url_with_password(u, Some(value)),
        changed(u, "hostname"@, value) == url_with_host(u, value).0,
        !url_fields(u).cannot_be_a_base ==> changed(u, "pathname"@, value) == url_with_path(
            u,
            value,
        ),
{
    parts_are_distinct();
}

/// A port is given as a number up to 65535.
pub proof fn port_is_given_as_a_number(u: Url, n: u16)
    ensures
        changed(u, "port"@, decimal(n as nat)) == url_with_port(u, Some(n)),
{
    parts_are_distinct();
    crate::text::decimal_reads_back(n as nat);
    crate::text::small_numbers_are_read(n);
}

/// A host without brackets ends at its first colon, and what follows is its port; without a colon
/// there is no port.
pub proof fn plain_host_splits_at_its_colon(name: Seq<char>, port: Seq<char>)
    requires
        !name.contains(':'),
        !name.contains(']'),
        !port.contains(']'),
    ensures
        host_in(name + ":"@ + port) == name,
        port_in(name + ":"@ + port) == u16_of(port),
        host_in(name) == name,
        port_in(name) is None,
{
    reveal_strlit(":");
    let value = name + ":"@ + port;
    let len = name.len() as int;
    crate::text::after_last_is_the_last(value, ']', value.len() as int);
    crate::text::after_last_is_the_last(name, ']', len);
    let a = after_last(value, ']', value.len() as int);
    if a > 0 {
        if a - 1 < len {
            assert(name[a - 1] == ']');
        } else if a - 1 > len {
            assert(port[a - 2 - len] == ']');
        }
    }
    let b = after_last(name, ']', len);
    if b > 0 {
        assert(name[b - 1] == ']');
    }
    crate::text::first_from_is_the_first(value, ':', 0);
    crate::text::first_from_is_the_first(name, ':', 0);
    assert(value[len] == ':');
    let n = port_colon(value);
    if n < len {
        assert(name[n] == ':');
    }
    let m = port_colon(name);
    assert(m == len);
    assert(value.take(n) =~= name);
    assert(value.skip(n + 1) =~= port);
    assert(name.take(m) =~= name);
}

/// A host is given with its port or without: the host name is set, and where it could be, the port
/// too, provided that it is a number. Without a port the port of the URL stays.
pub proof fn host_is_given_with_its_port(u: Url, name: Seq<char>, port: Seq<char>, n: u16)
    requires
        !name.contains(':'),
        !name.contains(']'),
        !port.contains(']'),
    ensures
        ({
            let (v, ok) = url_with_host(u, name);
            &&& changed(u, "host"@, name) == v
            &&& port == decimal(n as nat) && ok ==> changed(u, "host"@, name + ":"@ + port)
                == url_with_port(v, Some(n))
            &&& u16_of(port) is None || !ok ==> changed(u, "host"@, name + ":"@ + port) == v
        }),
{
    parts_are_distinct();
    plain_host_splits_at_its_colon(name, port);
    crate::text::small_numbers_are_read(n);
}

/// The beginning of a text has no more bytes than the text.
proof fn prefix_is_no_larger(s: Seq<char>, n: int)
    requires
        0 <= n <= s.len(),
    ensures
        size(s.take(n)) <= size(s),
    decreases s.len(),
{
    if n > 0 {
        assert(s.take(n).drop_first() =~= s.drop_first().take(n - 1));
        prefix_is_no_larger(s.drop_first(), n - 1);
    }
}

/// A text without its first character has no more bytes than the text.
proof fn rest_is_no_larger(s: Seq<char>)
    requires
        s.len() > 0,
    ensures
        size(s.skip(1)) <= size(s),
{
    assert(s.skip(1) =~= s.drop_first());
}

/// No value is refused that leaves a URL well below four thousand million bytes, even if every byte
/// of it became sixteen; a host with a port only where the URL is still below that with the host.
pub proof fn ordinary_values_fit(u: Url, part: Seq<char>, value: Seq<char>)
    requires
        encode_utf8(url_fields(u).href).len() + 16 * encode_utf8(value).len() + 64 <= u32::MAX,
        part == "host"@ ==> encode_utf8(
            url_fields(url_with_host(u, host_in(value)).0).href,
        ).len() + 6 <= u32::MAX,
    ensures
        can_change(u, part, value),
{
    parts_are_distinct();
    crate::text::first_from_is_the_first(value, ':', 0);
    prefix_is_no_larger(value, first_from(value, ':', 0));
    crate::text::after_last_is_the_last(value, ']', value.len() as int);
    crate::text::first_from_is_the_first(
        value,
        ':',
        after_last(value, ']', value.len() as int),
    );
    prefix_is_no_larger(value, port_colon(value));
    if value.len() > 0 {
        rest_is_no_larger(value);
    }
}

/// What a script reads of a URL: the scheme with its colon, the query with its question mark and
/// the fragment with its number sign, or nothing where they are missing or empty; a password and a
/// host name that are missing as empty; a port as a number that reads back as the port. The rest
/// is read as it is.
pub proof fn parts_show_the_url(f: UrlFieldsView, origin: Seq<char>)
    ensures
        ({
            let parts = parts_of(f, origin);
            &&& parts.href == f.href
            &&& parts.origin == origin
            &&& parts.protocol == f.scheme + ":"@
            &&& parts.username == f.username
            &&& parts.pathname == f.path
            &&& f.password is Some ==> parts.password == f.password->0
            &&& f.password is None ==> parts.password == Seq::<char>::empty()
            &&& f.host is Some ==> parts.hostname == f.host->0
            &&& f.host is None ==> parts.hostname == Seq::<char>::empty()
            &&& f.port is Some ==> u16_of(parts.port) == f.port && parts.port == decimal(
                f.port->0 as nat,
            ) && parts.host == parts.hostname + ":"@ + parts.port
            &&& f.port is None ==> parts.port == Seq::<char>::empty() && parts.host
                == parts.hostname
            &&& f.query is Some && f.query->0.len() > 0 ==> parts.search == "?"@ + f.query->0
            &&& f.query is None || f.query->0.len() == 0 ==> parts.search == Seq::<char>::empty()
            &&& f.fragment is Some && f.fragment->0.len() > 0 ==> parts.hash == "#"@
                + f.fragment->0
            &&& f.fragment is None || f.fragment->0.len() == 0 ==> parts.hash == Seq::<
                char,
            >::empty()
        }),
{
    if f.port is Some {
        crate::text::small_numbers_are_read(f.port->0);
    }
}

/// The origin of a URL is its own, but of a `blob` that of the URL in its path, and `null` where
/// the path is no URL.
pub proof fn blob_has_the_origin_of_its_path(u: Url)
    ensures
        url_fields(u).scheme != "blob"@ ==> read_parts(u).origin == url_origin(u),
        url_fields(u).scheme == "blob"@ && url_parsed(url_fields(u).path) is None
            ==> read_parts(u).origin == "null"@,
        ({
            let inner = url_parsed(url_fields(u).path);
            url_fields(u).scheme == "blob"@ && url_fields(u).path.len() > 0 && inner is Some
                && url_fields(inner->0).scheme != "blob"@ ==> read_parts(u).origin == url_origin(
                inner->0,
            )
        }),
{
    reveal_with_fuel(nested_origin, 2);
}

/// A text is a URL by itself, or seen from a base that is one; seen from a base that is none it is
/// none.
pub proof fn texts_are_seen_from_their_base(input: Seq<char>, base: Seq<char>)
    ensures
        resolved(input, None) == url_parsed(input),
        url_parsed(base) is Some ==> resolved(input, Some(base)) == url_joined(
            url_parsed(base)->0,
            input,
        ),
        url_parsed(base) is None ==> resolved(input, Some(base)) is None,
{
}

/// A host in brackets may be given with its port or without: the host name is set, and where it
/// could be, the port too, provided that it is a number.
pub proof fn bracketed_host_is_given_with_its_port(
    u: Url,
    name: Seq<char>,
    port: Seq<char>,
    n: u16,
)
    requires
        name.len() > 0,
        name.last() == ']',
        !port.contains(']'),
    ensures
        host_in(name) == name,
        port_in(name) is None,
        ({
            let (v, ok) = url_with_host(u, name);
            &&& changed(u, "host"@, name) == v
            &&& port == decimal(n as nat) && ok ==> changed(u, "host"@, name + ":"@ + port)
                == url_with_port(v, Some(n))
            &&& u16_of(port) is None || !ok ==> changed(u, "host"@, name + ":"@ + port) == v
        }),
{
    parts_are_distinct();
    host_splits_at_port(name, port);
    crate::text::small_numbers_are_read(n);
    last_bracket(name, name.len() as int, name.len() as int);
    assert(port_colon(name) == name.len());
    assert(name.take(name.len() as int) =~= name);
}

/// A text is seen as its characters, where there is one, and a missing one as empty where that is
/// wanted.
pub proof fn texts_are_seen_as_they_are(s: String, t: &str, c: Seq<char>)
    ensures
        text_view(Some(s)) == Some(s@),
        text_view(None) is None,
        str_view(Some(t)) == Some(t@),
        str_view(None) is None,
        or_empty(Some(c)) == c,
        or_empty(None) == Seq::<char>::empty(),
{
}

/// What is seen of the parts of a URL is the parts.
pub proof fn parts_are_seen_as_they_are(p: UrlParts)
    ensures
        p@.href == p.href@ && p@.origin == p.origin@ && p@.protocol == p.protocol@,
        p@.username == p.username@ && p@.password == p.password@,
        p@.host == p.host@ && p@.hostname == p.hostname@ && p@.port == p.port@,
        p@.pathname == p.pathname@ && p@.search == p.search@ && p@.hash == p.hash@,
{
}

/// A `blob` in the path of a `blob` has the origin of the URL in its own path.
pub proof fn nested_blobs_have_the_innermost_origin(u: Url, middle: Url, inner: Url)
    requires
        url_fields(u).scheme == "blob"@,
        url_fields(u).path.len() > 1,
        url_parsed(url_fields(u).path) == Some(middle),
        url_fields(middle).scheme == "blob"@,
        url_parsed(url_fields(middle).path) == Some(inner),
        url_fields(inner).scheme != "blob"@,
    ensures
        read_parts(u).origin == url_origin(inner),
{
    reveal_with_fuel(nested_origin, 3);
}

} // verus!
