//! Source discovery: finder options, source addresses and their parsing, the
//! selection of a discovered source by host, and the cache of sources found.
//!
//! Text is handled character by character; `:` and `/` are the only separators
//! the addressing rules use.

use vstd::prelude::*;
use vstd::string::StringExecFns;

use crate::error::Error;
use crate::text::{
    before_first, chars_of, contains_seq, find_char_from, find_chars, first_index_exec,
    first_index_of, first_occurrence, last_index_exec, last_index_of, parse_u16,
    parse_u16_chars,
};

verus! {

/// Options of a network finder.
#[derive(Debug)]
pub struct FinderOptions {
    /// Whether sources on this machine are listed.
    pub show_local_sources: bool,
    /// Comma-separated groups to search.
    pub groups: Option<String>,
    /// Extra IP addresses or ranges to query.
    pub extra_ips: Option<String>,
}

impl Default for FinderOptions {
    fn default() -> (r: FinderOptions)
        ensures
            !r.show_local_sources && r.groups is None && r.extra_ips is None,
    {
        FinderOptions { show_local_sources: false, groups: None, extra_ips: None }
    }
}

/// Finder creation settings as the SDK reads them: the flag and the groups and
/// extra-IP texts as C strings (`None` for a null pointer).
#[derive(Debug)]
pub struct RawFindCreate {
    pub show_local_sources: bool,
    pub groups: Option<Vec<u8>>,
    pub extra_ips: Option<Vec<u8>>,
}

/// The C string of optional text: `None` stays `None`.
pub open spec fn opt_c_string_of(s: Option<String>) -> Option<Seq<u8>> {
    match s {
        Some(t) => Some(c_string_of(t@)),
        None => None,
    }
}

/// Optional text that can become a C string.
pub open spec fn opt_c_string_ok(s: Option<String>) -> bool {
    s matches Some(t) ==> crate::text::c_string_ok(t@)
}

/// The position of the first NUL byte in optional text.
pub open spec fn opt_first_nul(s: Option<String>) -> Option<int> {
    match s {
        Some(t) => crate::text::first_nul(vstd::utf8::encode_utf8(t@)),
        None => None,
    }
}

/// The C string of optional text, or the position of its first NUL byte.
fn opt_c_string_bytes(s: &Option<String>) -> (r: Result<Option<Vec<u8>>, Error>)
    ensures
        r is Ok <==> opt_c_string_ok(*s),
        r matches Ok(b) ==> (match b {
            Some(v) => Some(v@),
            None => None::<Seq<u8>>,
        }) == opt_c_string_of(*s),
        r matches Err(e) ==> e matches Error::InvalidCString(p) && opt_first_nul(*s) == Some(
            p as int,
        ),
{
    match s {
        Some(t) => {
            let b = crate::text::c_string_bytes(t.as_str())?;
            Ok(Some(b))
        },
        None => Ok(None),
    }
}

impl FinderOptions {
    /// A builder with every field unset.
    pub fn builder() -> (r: FinderOptionsBuilder)
        ensures
            r.show_local_sources is None && r.groups is None && r.extra_ips is None,
    {
        FinderOptionsBuilder::new()
    }

    /// The settings the SDK reads; text holding a NUL byte cannot become a C string
    /// and is reported by the position of that byte, the groups checked first.
    pub fn to_raw(&self) -> (r: Result<RawFindCreate, Error>)
        ensures
            r is Ok <==> opt_c_string_ok(self.groups) && opt_c_string_ok(self.extra_ips),
            r matches Ok(raw) ==> {
                &&& raw.show_local_sources == self.show_local_sources
                &&& (match raw.groups {
                    Some(v) => Some(v@),
                    None => None::<Seq<u8>>,
                }) == opt_c_string_of(self.groups)
                &&& (match raw.extra_ips {
                    Some(v) => Some(v@),
                    None => None::<Seq<u8>>,
                }) == opt_c_string_of(self.extra_ips)
            },
            r matches Err(e) ==> e matches Error::InvalidCString(p) && if opt_c_string_ok(
                self.groups,
            ) {
                opt_first_nul(self.extra_ips) == Some(p as int)
            } else {
                opt_first_nul(self.groups) == Some(p as int)
            },
    {
        let groups = opt_c_string_bytes(&self.groups)?;
        let extra_ips = opt_c_string_bytes(&self.extra_ips)?;
        Ok(RawFindCreate { show_local_sources: self.show_local_sources, groups, extra_ips })
    }
}

/// Builder of [`FinderOptions`]; local sources are shown unless told otherwise.
#[derive(Debug)]
pub struct FinderOptionsBuilder {
    pub show_local_sources: Option<bool>,
    pub groups: Option<String>,
    pub extra_ips: Option<String>,
}

impl Default for FinderOptionsBuilder {
    fn default() -> (r: FinderOptionsBuilder)
        ensures
            r.show_local_sources is None && r.groups is None && r.extra_ips is None,
    {
        FinderOptionsBuilder::new()
    }
}

impl FinderOptionsBuilder {
    /// A builder with every field unset.
    pub fn new() -> (r: FinderOptionsBuilder)
        ensures
            r.show_local_sources is None && r.groups is None && r.extra_ips is None,
    {
        FinderOptionsBuilder { show_local_sources: None, groups: None, extra_ips: None }
    }

    /// Sets whether local sources are shown.
    pub fn show_local_sources(self, show: bool) -> (r: FinderOptionsBuilder)
        ensures
            r.show_local_sources == Some(show),
            r.groups == self.groups,
            r.extra_ips == self.extra_ips,
    {
        FinderOptionsBuilder { show_local_sources: Some(show), ..self }
    }

    /// Sets the groups to search.
    pub fn groups(self, groups: &str) -> (r: FinderOptionsBuilder)
        ensures
            r.groups matches Some(g) && g@ == groups@,
            r.show_local_sources == self.show_local_sources,
            r.extra_ips == self.extra_ips,
    {
        FinderOptionsBuilder { groups: Some(groups.to_string()), ..self }
    }

    /// Sets the extra IP addresses to query.
    pub fn extra_ips(self, ips: &str) -> (r: FinderOptionsBuilder)
        ensures
            r.extra_ips matches Some(g) && g@ == ips@,
            r.show_local_sources == self.show_local_sources,
            r.groups == self.groups,
    {
        FinderOptionsBuilder { extra_ips: Some(ips.to_string()), ..self }
    }

    /// The options; local sources are shown unless set otherwise.
    pub fn build(self) -> (r: FinderOptions)
        ensures
            r.show_local_sources == match self.show_local_sources {
                Some(b) => b,
                None => true,
            },
            r.groups == self.groups,
            r.extra_ips == self.extra_ips,
    {
        let show_local_sources = match self.show_local_sources {
            Some(b) => b,
            None => true,
        };
        FinderOptions { show_local_sources, groups: self.groups, extra_ips: self.extra_ips }
    }
}

/// Network address of a source: a URL (NDI HX sources), an IP address with port,
/// or none.
#[derive(Debug)]
pub enum SourceAddress {
    /// No address.
    NoAddress,
    /// A URL.
    Url(String),
    /// An IP address, usually `host:port`.
    Ip(String),
}

impl Default for SourceAddress {
    fn default() -> (r: SourceAddress)
        ensures
            r is NoAddress,
    {
        SourceAddress::NoAddress
    }
}

impl Clone for SourceAddress {
    fn clone(&self) -> (r: SourceAddress)
        ensures
            r == *self,
    {
        match self {
            SourceAddress::NoAddress => SourceAddress::NoAddress,
            SourceAddress::Url(u) => SourceAddress::Url(u.clone()),
            SourceAddress::Ip(ip) => SourceAddress::Ip(ip.clone()),
        }
    }
}

/// Whether an address contains `host` as a substring.
pub open spec fn address_contains(a: SourceAddress, host: Seq<char>) -> bool {
    match a {
        SourceAddress::Ip(ip) => contains_seq(ip@, host),
        SourceAddress::Url(u) => contains_seq(u@, host),
        SourceAddress::NoAddress => false,
    }
}

/// The port of an address. For an IP address, the text after the last `:`; for
/// a URL, the text after the last `:` up to the next `/`, unless that colon ends
/// a `scheme:/` prefix (the text before it ends with `/`). The port text must
/// parse as a `u16`.
pub open spec fn address_port(a: SourceAddress) -> Option<u16> {
    match a {
        SourceAddress::NoAddress => None,
        SourceAddress::Ip(ip) => ip_port_of(ip@),
        SourceAddress::Url(u) => url_port_of(u@),
    }
}

/// The port of an IP address: the text after its last `:`, read as a `u16`.
pub open spec fn ip_port_of(s: Seq<char>) -> Option<u16> {
    match last_index_of(s, ':') {
        Some(p) => parse_u16(s.subrange(p + 1, s.len() as int)),
        None => None,
    }
}

/// The port of a URL: the text after its last `:` up to the next `/`, read as a
/// `u16`, unless the text before that colon ends with `/`.
pub open spec fn url_port_of(s: Seq<char>) -> Option<u16> {
    match last_index_of(s, ':') {
        Some(p) => if p > 0 && s[p - 1] == '/' {
            None
        } else {
            parse_u16(before_first(s.subrange(p + 1, s.len() as int), '/'))
        },
        None => None,
    }
}

/// The separator between a URL's scheme and its host.
pub open spec fn scheme_separator() -> Seq<char> {
    seq![':', '/', '/']
}

/// The host part of an address: for an IP address, the text before the first
/// `:`; for a URL, the text after the first `://` (or all of it) up to the first
/// `:`, then up to the first `/`, if that is not empty.
pub open spec fn address_host(a: SourceAddress) -> Option<Seq<char>> {
    match a {
        SourceAddress::NoAddress => None,
        SourceAddress::Ip(ip) => Some(before_first(ip@, ':')),
        SourceAddress::Url(u) => url_host_of(u@),
    }
}

/// The host name of a URL: the text after the first `://` (or all of it) up to
/// the first `:`, then up to the first `/`, if that is not empty.
pub open spec fn url_host_of(u: Seq<char>) -> Option<Seq<char>> {
    let rest = match first_occurrence(u, scheme_separator()) {
        Some(i) => u.subrange(i + 3, u.len() as int),
        None => u,
    };
    let host = before_first(before_first(rest, ':'), '/');
    if host.len() == 0 {
        None
    } else {
        Some(host)
    }
}

/// Cutting text at its first `c` leaves a prefix of it that holds no `c` and,
/// when shorter than the text, stops right at a `c`.
proof fn lemma_before_first(s: Seq<char>, c: char)
    ensures
        before_first(s, c).len() <= s.len(),
        forall|j: int|
            0 <= j < before_first(s, c).len() ==> #[trigger] before_first(s, c)[j] == s[j] && s[j]
                != c,
        before_first(s, c).len() < s.len() ==> s[before_first(s, c).len() as int] == c,
{
    if exists|k: int| 0 <= k < s.len() && s[k] == c {
        let k = choose|k: int| 0 <= k < s.len() && s[k] == c;
        lemma_first_of_exists(s, c, k);
        let i = first_index_of(s, c).unwrap();
        assert(0 <= i < s.len() && s[i] == c && forall|j: int| 0 <= j < i ==> s[j] != c);
    }
}

/// Text holding a `c` at `k` has a first `c`.
proof fn lemma_first_of_exists(s: Seq<char>, c: char, k: int)
    requires
        0 <= k < s.len(),
        s[k] == c,
    ensures
        exists|q: int| 0 <= q < s.len() && s[q] == c && forall|j: int| 0 <= j < q ==> s[j] != c,
    decreases k,
{
    if exists|j: int| 0 <= j < k && s[j] == c {
        let j = choose|j: int| 0 <= j < k && s[j] == c;
        lemma_first_of_exists(s, c, j);
    } else {
        assert(0 <= k < s.len() && s[k] == c && forall|j: int| 0 <= j < k ==> s[j] != c);
    }
}

/// The text of a URL after its first `://`, or all of it without one.
pub open spec fn after_scheme(u: Seq<char>) -> Seq<char> {
    match first_occurrence(u, scheme_separator()) {
        Some(i) => u.subrange(i + 3, u.len() as int),
        None => u,
    }
}

/// The host of a URL is the host name alone: a non-empty start of the text after
/// the scheme that holds no `:` and no `/` (so neither a port nor a path), and
/// that stops right at the first `:` or `/` when it is shorter than that text.
/// There is none exactly when that text is empty or starts with `:` or `/`.
pub proof fn lemma_url_host_shape(u: Seq<char>)
    ensures
        url_host_of(u) matches Some(h) ==> {
            &&& 0 < h.len() <= after_scheme(u).len()
            &&& forall|j: int|
                0 <= j < h.len() ==> #[trigger] h[j] == after_scheme(u)[j] && h[j] != ':' && h[j]
                    != '/'
            &&& h.len() < after_scheme(u).len() ==> (after_scheme(u)[h.len() as int] == ':'
                || after_scheme(u)[h.len() as int] == '/')
        },
        url_host_of(u) is None <==> (after_scheme(u).len() == 0 || after_scheme(u)[0] == ':'
            || after_scheme(u)[0] == '/'),
{
    let rest = after_scheme(u);
    let m = before_first(rest, ':');
    let h = before_first(m, '/');
    lemma_before_first(rest, ':');
    lemma_before_first(m, '/');
    assert forall|j: int| 0 <= j < h.len() implies #[trigger] h[j] == rest[j] && h[j] != ':' && h[j]
        != '/' by {
        assert(h[j] == m[j]);
        assert(m[j] == rest[j]);
    }
    if h.len() < rest.len() {
        if h.len() < m.len() {
            assert(m[h.len() as int] == '/');
            assert(m[h.len() as int] == rest[h.len() as int]);
        } else {
            assert(rest[m.len() as int] == ':');
        }
    }
    if rest.len() > 0 && (rest[0] == ':' || rest[0] == '/') {
        if h.len() > 0 {
            assert(h[0] == rest[0]);
        }
    }
}

/// The host of any source address holds no port and no path: for an IP address
/// it is the start of the address up to its first `:` (which it does not
/// contain), for a URL the host name of [`lemma_url_host_shape`].
pub proof fn lemma_address_host_shape(a: SourceAddress)
    ensures
        address_host(a) matches Some(h) ==> forall|j: int|
            0 <= j < h.len() ==> #[trigger] h[j] != ':',
        a is Url ==> (address_host(a) matches Some(h) ==> forall|j: int|
            0 <= j < h.len() ==> #[trigger] h[j] != '/'),
        a matches SourceAddress::Ip(ip) ==> (address_host(a) matches Some(h) && h.len() <= ip@.len()
            && (forall|j: int| 0 <= j < h.len() ==> #[trigger] h[j] == ip@[j]) && (h.len()
            < ip@.len() ==> ip@[h.len() as int] == ':')),
{
    match a {
        SourceAddress::NoAddress => {},
        SourceAddress::Ip(ip) => {
            lemma_before_first(ip@, ':');
        },
        SourceAddress::Url(u) => {
            lemma_url_host_shape(u@);
        },
    }
}

/// Does `s` contain `host`?
fn str_contains(s: &str, host: &str) -> (r: bool)
    ensures
        r == contains_seq(s@, host@),
{
    let hay = chars_of(s);
    let pat = chars_of(host);
    find_chars(hay.as_slice(), pat.as_slice()).is_some()
}

impl SourceAddress {
    /// Whether the address contains `host` as a substring.
    pub fn contains_host(&self, host: &str) -> (r: bool)
        ensures
            r == address_contains(*self, host@),
    {
        match self {
            SourceAddress::Ip(ip) => str_contains(ip.as_str(), host),
            SourceAddress::Url(u) => str_contains(u.as_str(), host),
            SourceAddress::NoAddress => false,
        }
    }

    /// The port of the address, if it has one.
    pub fn port(&self) -> (r: Option<u16>)
        ensures
            r == address_port(*self),
    {
        match self {
            SourceAddress::NoAddress => None,
            SourceAddress::Ip(ip) => ip_port(ip.as_str()),
            SourceAddress::Url(u) => url_port(u.as_str()),
        }
    }
}

/// The port of an IP address.
fn ip_port(ip: &str) -> (r: Option<u16>)
    ensures
        r == ip_port_of(ip@),
{
    let chars = chars_of(ip);
    match last_index_exec(chars.as_slice(), ':') {
        Some(p) => {
            assert(p < chars@.len());
            let tail = vstd::slice::slice_subrange(chars.as_slice(), p + 1, chars.len());
            parse_u16_chars(tail)
        },
        None => None,
    }
}

/// The port of a URL.
fn url_port(u: &str) -> (r: Option<u16>)
    ensures
        r == url_port_of(u@),
{
    let chars = chars_of(u);
    match last_index_exec(chars.as_slice(), ':') {
        Some(p) => {
            if p > 0 && chars[p - 1] == '/' {
                None
            } else {
                let tail = vstd::slice::slice_subrange(chars.as_slice(), p + 1, chars.len());
                let end = match first_index_exec(tail, '/') {
                    Some(k) => k,
                    None => tail.len(),
                };
                let port_text = vstd::slice::slice_subrange(tail, 0, end);
                proof {
                    assert(port_text@ == before_first(tail@, '/'));
                }
                parse_u16_chars(port_text)
            }
        },
        None => None,
    }
}

/// A source found on the network: its name (usually `MACHINE (Source)`) and its
/// address.
#[derive(Debug)]
pub struct Source {
    /// The NDI source name.
    pub name: String,
    /// The address to connect to.
    pub address: SourceAddress,
}

impl Default for Source {
    fn default() -> (r: Source)
        ensures
            r.name@ == Seq::<char>::empty(),
            r.address is NoAddress,
    {
        Source { name: String::new(), address: SourceAddress::NoAddress }
    }
}

impl Clone for Source {
    fn clone(&self) -> (r: Source)
        ensures
            r == *self,
    {
        Source { name: self.name.clone(), address: self.address.clone() }
    }
}

/// Whether a source's name or address contains `host`.
pub open spec fn source_matches(s: Source, host: Seq<char>) -> bool {
    contains_seq(s.name@, host) || address_contains(s.address, host)
}

/// The NUL-terminated strings the SDK reads for a source: the name, and the URL
/// or the IP address.
#[derive(Debug)]
pub struct RawSource {
    pub name: Vec<u8>,
    pub url_address: Option<Vec<u8>>,
    pub ip_address: Option<Vec<u8>>,
}

/// The bytes of a C string holding `s`: its UTF-8 bytes and a terminator.
pub open spec fn c_string_of(s: Seq<char>) -> Seq<u8> {
    vstd::utf8::encode_utf8(s) + seq![0u8]
}

/// The text of an IP address before its first `:`.
fn ip_host(ip: &str) -> (r: &str)
    ensures
        r@ == before_first(ip@, ':'),
{
    let chars = chars_of(ip);
    let end = match first_index_exec(chars.as_slice(), ':') {
        Some(k) => k,
        None => chars.len(),
    };
    let host = ip.substring_char(0, end);
    proof {
        assert(host@ =~= before_first(ip@, ':'));
    }
    host
}

/// The host name of a URL: after the first `://`, up to the first `:`, then up to
/// the first `/`; `None` when that is empty.
fn url_host(u: &str) -> (r: Option<&str>)
    ensures
        r matches Some(s) ==> url_host_of(u@) == Some(s@),
        r is None ==> url_host_of(u@) is None,
{
    let chars = chars_of(u);
    let n = chars.len();
    let sep: Vec<char> = vec![':', '/', '/'];
    proof {
        assert(sep@ == scheme_separator());
    }
    let from = match find_chars(chars.as_slice(), sep.as_slice()) {
        Some(i) => i + 3,
        None => 0,
    };
    let rest = vstd::slice::slice_subrange(chars.as_slice(), from, n);
    proof {
        let spec_rest = match first_occurrence(u@, scheme_separator()) {
            Some(i) => u@.subrange(i + 3, u@.len() as int),
            None => u@,
        };
        assert(rest@ =~= spec_rest);
    }
    let end1 = match first_index_exec(rest, ':') {
        Some(k) => k,
        None => rest.len(),
    };
    let first = vstd::slice::slice_subrange(rest, 0, end1);
    let end2 = match first_index_exec(first, '/') {
        Some(k) => k,
        None => first.len(),
    };
    proof {
        assert(first@ =~= before_first(rest@, ':'));
        assert(first@.subrange(0, end2 as int) =~= before_first(first@, '/'));
    }
    proof {
        assert(before_first(before_first(rest@, ':'), '/') == first@.subrange(0, end2 as int));
    }
    if end2 == 0 {
        return None;
    }
    let host = u.substring_char(from, from + end2);
    proof {
        assert(host@ =~= first@.subrange(0, end2 as int));
    }
    Some(host)
}

/// The address the SDK's address text names: a URL when it contains `://`, an
/// IP address otherwise, none without text.
pub open spec fn address_of_text(address: Option<String>) -> SourceAddress {
    match address {
        None => SourceAddress::NoAddress,
        Some(a) => if contains_seq(a@, scheme_separator()) {
            SourceAddress::Url(a)
        } else {
            SourceAddress::Ip(a)
        },
    }
}

/// The text of an address, as the SDK carries it.
pub open spec fn address_text(a: SourceAddress) -> Option<String> {
    match a {
        SourceAddress::NoAddress => None,
        SourceAddress::Url(u) => Some(u),
        SourceAddress::Ip(ip) => Some(ip),
    }
}

/// An address whose kind its text shows: URLs contain `://`, IP addresses do not.
pub open spec fn address_kind_shown(a: SourceAddress) -> bool {
    match a {
        SourceAddress::NoAddress => true,
        SourceAddress::Url(u) => contains_seq(u@, scheme_separator()),
        SourceAddress::Ip(ip) => !contains_seq(ip@, scheme_separator()),
    }
}

/// A source handed to the SDK and reported back is the same source when its
/// address kind is shown by its text: the SDK carries only the name and the
/// address text, and [`Source::from_raw`] reads the kind from the text.
pub proof fn lemma_source_round_trip(s: Source)
    requires
        address_kind_shown(s.address),
    ensures
        address_of_text(address_text(s.address)) == s.address,
{
}

impl Source {
    /// Whether the name and the address can become C strings.
    pub open spec fn to_raw_ok(self) -> bool {
        crate::text::c_string_ok(self.name@) && match self.address {
            SourceAddress::Url(u) => crate::text::c_string_ok(u@),
            SourceAddress::Ip(ip) => crate::text::c_string_ok(ip@),
            SourceAddress::NoAddress => true,
        }
    }

    /// Whether the name or the address contains `host`.
    pub fn matches_host(&self, host: &str) -> (r: bool)
        ensures
            r == source_matches(*self, host@),
    {
        str_contains(self.name.as_str(), host) || self.address.contains_host(host)
    }

    /// The host part of the address: an IP address without its port, or a URL's
    /// host name.
    pub fn ip_address(&self) -> (r: Option<&str>)
        ensures
            r matches Some(s) ==> address_host(self.address) == Some(s@),
            r is None ==> address_host(self.address) is None,
    {
        match &self.address {
            SourceAddress::NoAddress => None,
            SourceAddress::Ip(ip) => Some(ip_host(ip.as_str())),
            SourceAddress::Url(u) => url_host(u.as_str()),
        }
    }

    /// The host part of the address; the same as [`Source::ip_address`].
    pub fn host(&self) -> (r: Option<&str>)
        ensures
            r matches Some(s) ==> address_host(self.address) == Some(s@),
            r is None ==> address_host(self.address) is None,
    {
        self.ip_address()
    }

    /// A source from the name and address text the SDK reports. An address that
    /// contains `://` is a URL; any other address is an IP address.
    pub fn from_raw(name: String, address: Option<String>) -> (r: Source)
        ensures
            r.name == name,
            r.address == address_of_text(address),
    {
        let address = match address {
            None => SourceAddress::NoAddress,
            Some(a) => {
                let chars = chars_of(a.as_str());
                let sep: Vec<char> = vec![':', '/', '/'];
                proof {
                    assert(sep@ == scheme_separator());
                }
                if find_chars(chars.as_slice(), sep.as_slice()).is_some() {
                    SourceAddress::Url(a)
                } else {
                    SourceAddress::Ip(a)
                }
            },
        };
        Source { name, address }
    }

    /// The C strings the SDK reads for this source. Text holding a NUL byte cannot
    /// become a C string; the error gives the position of its first NUL.
    pub fn to_raw(&self) -> (r: Result<RawSource, Error>)
        ensures
            r is Ok <==> self.to_raw_ok(),
            r matches Ok(raw) ==> raw.name@ == c_string_of(self.name@) && match self.address {
                SourceAddress::Url(u) => raw.url_address matches Some(b) && b@ == c_string_of(u@)
                    && raw.ip_address is None,
                SourceAddress::Ip(ip) => raw.ip_address matches Some(b) && b@ == c_string_of(ip@)
                    && raw.url_address is None,
                SourceAddress::NoAddress => raw.url_address is None && raw.ip_address is None,
            },
            r matches Err(e) ==> e is InvalidCString,
    {
        let name = crate::text::c_string_bytes(self.name.as_str())?;
        match &self.address {
            SourceAddress::Url(u) => {
                let url = crate::text::c_string_bytes(u.as_str())?;
                Ok(RawSource { name, url_address: Some(url), ip_address: None })
            },
            SourceAddress::Ip(ip) => {
                let ip_bytes = crate::text::c_string_bytes(ip.as_str())?;
                Ok(RawSource { name, url_address: None, ip_address: Some(ip_bytes) })
            },
            SourceAddress::NoAddress => Ok(RawSource { name, url_address: None, ip_address: None }),
        }
    }

    /// `name@address`, or just the name when there is no address.
    pub fn to_display_string(&self) -> (r: String)
        ensures
            r@ == match self.address {
                SourceAddress::Url(u) => self.name@ + seq!['@'] + u@,
                SourceAddress::Ip(ip) => self.name@ + seq!['@'] + ip@,
                SourceAddress::NoAddress => self.name@,
            },
    {
        let mut out = self.name.clone();
        match &self.address {
            SourceAddress::Url(u) => {
                out.append("@");
                proof {
                    reveal_strlit("@");
                }
                out.append(u.as_str());
            },
            SourceAddress::Ip(ip) => {
                out.append("@");
                proof {
                    reveal_strlit("@");
                }
                out.append(ip.as_str());
            },
            SourceAddress::NoAddress => {},
        }
        out
    }
}

/// `sources[i]` is the first source that matches `host`.
pub open spec fn is_first_match(sources: Seq<Source>, host: Seq<char>, i: int) -> bool {
    0 <= i < sources.len() && source_matches(sources[i], host) && forall|j: int|
        0 <= j < i ==> !source_matches(sources[j], host)
}

/// The error reported when no discovered source matches `host`.
pub open spec fn no_match_error(e: Error, host: Seq<char>) -> bool {
    e matches Error::NoSourcesFound { criteria } && criteria@ == seq!['h', 'o', 's', 't', ':', ' ']
        + host
}

/// The first of `sources` that matches `host`.
pub fn select_source(sources: &[Source], host: &str) -> (r: Result<Source, Error>)
    ensures
        r matches Ok(s) ==> exists|i: int| is_first_match(sources@, host@, i) && sources@[i] == s,
        r is Err <==> forall|i: int| 0 <= i < sources@.len() ==> !source_matches(sources@[i], host@),
        r matches Err(e) ==> no_match_error(e, host@),
{
    let n = sources.len();
    let mut i: usize = 0;
    while i < n
        invariant
            n == sources@.len(),
            i <= n,
            forall|j: int| 0 <= j < i ==> !source_matches(sources@[j], host@),
        decreases n - i,
    {
        if sources[i].matches_host(host) {
            proof {
                assert(is_first_match(sources@, host@, i as int));
            }
            return Ok(sources[i].clone());
        }
        i = i + 1;
    }
    let mut criteria = String::new();
    criteria.append("host: ");
    proof {
        reveal_strlit("host: ");
    }
    criteria.append(host);
    proof {
        assert(criteria@ =~= seq!['h', 'o', 's', 't', ':', ' '] + host@);
    }
    Err(Error::NoSourcesFound { criteria })
}

/// One operation on a source cache, as its caller sees it.
pub enum CacheOp {
    /// A lookup of the host that returned this source.
    Found(Seq<char>, Source),
    /// A lookup of the host that failed.
    Missed(Seq<char>),
    /// This source cached under the host.
    Inserted(Seq<char>, Source),
    /// The host's entry dropped.
    Invalidated(Seq<char>),
    /// Every entry dropped.
    Cleared,
}

/// How an operation changes the cached sources: a lookup that found a source
/// caches it unless the host was cached already; a failed lookup changes
/// nothing; an insert replaces; invalidating drops one host; clearing drops all.
pub open spec fn cache_step(
    old: Map<Seq<char>, Source>,
    op: CacheOp,
    new: Map<Seq<char>, Source>,
) -> bool {
    match op {
        CacheOp::Found(h, s) => new == if old.contains_key(h) {
            old
        } else {
            old.insert(h, s)
        },
        CacheOp::Missed(_) => new == old,
        CacheOp::Inserted(h, s) => new == old.insert(h, s),
        CacheOp::Invalidated(h) => new == old.remove(h),
        CacheOp::Cleared => new == Map::<Seq<char>, Source>::empty(),
    }
}

/// The hosts that `ops` leave cached, starting from an empty cache: those found
/// or inserted since the last clear and not invalidated since.
pub open spec fn hosts_cached(ops: Seq<CacheOp>) -> Set<Seq<char>>
    decreases ops.len(),
{
    if ops.len() == 0 {
        Set::empty()
    } else {
        let before = hosts_cached(ops.drop_last());
        match ops.last() {
            CacheOp::Found(h, _) => before.insert(h),
            CacheOp::Inserted(h, _) => before.insert(h),
            CacheOp::Missed(_) => before,
            CacheOp::Invalidated(h) => before.remove(h),
            CacheOp::Cleared => Set::empty(),
        }
    }
}

/// The length of a cache counts its hosts: after any sequence of operations on
/// a fresh cache, the cached hosts are exactly those found or inserted since the
/// last clear and not invalidated since, and the cache's length is their number.
pub proof fn lemma_cache_len_counts_hosts(views: Seq<Map<Seq<char>, Source>>, ops: Seq<CacheOp>)
    requires
        views.len() == ops.len() + 1,
        views[0] == Map::<Seq<char>, Source>::empty(),
        forall|i: int| 0 <= i < ops.len() ==> #[trigger] cache_step(views[i], ops[i], views[i + 1]),
    ensures
        views.last().dom() == hosts_cached(ops),
        hosts_cached(ops).finite(),
        views.last().len() == hosts_cached(ops).len(),
    decreases ops.len(),
{
    if ops.len() == 0 {
        assert(views.last().dom() =~= Set::<Seq<char>>::empty());
    } else {
        let pv = views.drop_last();
        let po = ops.drop_last();
        assert forall|i: int| 0 <= i < po.len() implies #[trigger] cache_step(pv[i], po[i], pv[i + 1]) by {
            assert(cache_step(views[i], ops[i], views[i + 1]));
        }
        lemma_cache_len_counts_hosts(pv, po);
        let n = ops.len() - 1;
        assert(cache_step(views[n], ops[n], views[n + 1]));
        assert(pv.last() == views[n]);
        assert(views.last().dom() =~= hosts_cached(ops));
    }
}

/// One cached source, under the host text it was looked up by.
#[derive(Debug)]
pub struct CacheEntry {
    host: String,
    source: Source,
}

/// Sources found so far, keyed by the host text they were looked up by.
#[derive(Debug)]
pub struct SourceCache {
    entries: Vec<CacheEntry>,
}

impl SourceCache {
    /// The host keys in insertion order.
    pub closed spec fn spec_keys(self) -> Seq<Seq<char>> {
        self.entries@.map_values(|e: CacheEntry| e.host@)
    }

    #[verifier::type_invariant]
    spec fn inv(self) -> bool {
        self.spec_keys().no_duplicates()
    }

    /// Index of the entry for `key`.
    closed spec fn index_of_key(self, key: Seq<char>) -> int {
        choose|i: int| 0 <= i < self.entries@.len() && self.entries@[i].host@ == key
    }

    /// The cached sources by host.
    pub closed spec fn view(self) -> Map<Seq<char>, Source> {
        Map::new(
            |k: Seq<char>| self.spec_keys().contains(k),
            |k: Seq<char>| self.entries@[self.index_of_key(k)].source,
        )
    }

    /// The entry at `i` is the one for its key.
    proof fn lemma_entry_is_lookup(self, i: int)
        requires
            self.spec_keys().no_duplicates(),
            0 <= i < self.entries@.len(),
        ensures
            self.view().contains_key(self.entries@[i].host@),
            self.view()[self.entries@[i].host@] == self.entries@[i].source,
    {
        let k = self.entries@[i].host@;
        assert(self.spec_keys()[i] == k);
        let j = self.index_of_key(k);
        assert(0 <= j < self.entries@.len() && self.entries@[j].host@ == k);
        assert(self.spec_keys()[j] == k);
    }

    /// The cached hosts are the keys of the entries.
    proof fn lemma_dom_is_keys(self)
        ensures
            self.view().dom() == self.spec_keys().to_set(),
            self.view().dom().finite(),
    {
        assert(self.view().dom() =~= self.spec_keys().to_set());
        vstd::seq_lib::seq_to_set_is_finite(self.spec_keys());
    }

    /// Finitely many hosts are cached, so the cache's length counts them.
    pub proof fn lemma_hosts_finite(self)
        ensures
            self.view().dom().finite(),
    {
        self.lemma_dom_is_keys();
    }

    /// An empty cache.
    pub fn new() -> (r: Result<SourceCache, Error>)
        ensures
            r matches Ok(c) && c.view() == Map::<Seq<char>, Source>::empty(),
    {
        let c = SourceCache { entries: Vec::new() };
        proof {
            assert(c.spec_keys() =~= Seq::<Seq<char>>::empty());
            assert(c.view() =~= Map::<Seq<char>, Source>::empty());
        }
        Ok(c)
    }

    /// Index of the entry for `host`.
    fn find(&self, host: &str) -> (r: Option<usize>)
        ensures
            r matches Some(i) ==> i < self.entries@.len() && self.entries@[i as int].host@ == host@,
            r is None ==> !self.view().contains_key(host@),
    {
        let n = self.entries.len();
        let mut i: usize = 0;
        while i < n
            invariant
                n == self.entries@.len(),
                i <= n,
                forall|j: int| 0 <= j < i ==> self.entries@[j].host@ != host@,
            decreases n - i,
        {
            if crate::text::str_equal(self.entries[i].host.as_str(), host) {
                return Some(i);
            }
            i = i + 1;
        }
        proof {
            if self.spec_keys().contains(host@) {
                let j = choose|j: int| 0 <= j < self.spec_keys().len() && self.spec_keys()[j] == host@;
                assert(self.entries@[j].host@ == host@);
            }
        }
        None
    }

    /// The cached source for `host`, if any.
    pub fn get(&self, host: &str) -> (r: Option<Source>)
        ensures
            r is Some <==> self.view().contains_key(host@),
            r matches Some(s) ==> s == self.view()[host@],
    {
        proof {
            use_type_invariant(self);
        }
        match self.find(host) {
            Some(i) => {
                proof {
                    self.lemma_entry_is_lookup(i as int);
                }
                Some(self.entries[i].source.clone())
            },
            None => None,
        }
    }

    /// Caches `source` under `host`, replacing any earlier entry.
    pub fn insert(&mut self, host: &str, source: Source)
        ensures
            final(self).view() == old(self).view().insert(host@, source),
            cache_step(old(self).view(), CacheOp::Inserted(host@, source), final(self).view()),
            final(self).view().len() == old(self).view().len() + if old(self).view().contains_key(
                host@,
            ) {
                0int
            } else {
                1int
            },
    {
        proof {
            use_type_invariant(&*self);
        }
        let ghost old_self = *self;
        let key = host.to_string();
        let found = self.find(host);
        let mut entries: Vec<CacheEntry> = Vec::new();
        std::mem::swap(&mut entries, &mut self.entries);
        proof {
            assert(entries@ == old_self.entries@);
        }
        match found {
            Some(i) => {
                entries.set(i, CacheEntry { host: key, source });
            },
            None => {
                entries.push(CacheEntry { host: key, source });
            },
        }
        let ghost new_self = SourceCache { entries };
        proof {
            let ok = old_self.spec_keys();
            let nk = new_self.spec_keys();
            match found {
                Some(i) => {
                    assert(nk =~= ok);
                },
                None => {
                    assert(nk =~= ok.push(host@));
                    assert(!ok.contains(host@));
                    assert forall|a: int, b: int| 0 <= a < b < nk.len() implies nk[a] != nk[b] by {
                        if b == nk.len() - 1 {
                            assert(ok[a] == nk[a]);
                        } else {
                            assert(ok[a] != ok[b]);
                        }
                    }
                },
            }
            assert(nk.no_duplicates());
            let target = old_self.view().insert(host@, source);
            let idx: int = match found {
                Some(i) => i as int,
                None => old_self.entries@.len() as int,
            };
            new_self.lemma_entry_is_lookup(idx);
            assert forall|k: Seq<char>| #[trigger] new_self.view().contains_key(k) <==> target.contains_key(k) by {
                if k != host@ {
                    assert(nk.contains(k) ==> ok.contains(k)) by {
                        if nk.contains(k) {
                            let j = choose|j: int| 0 <= j < nk.len() && nk[j] == k;
                            assert(ok[j] == k);
                        }
                    }
                    assert(ok.contains(k) ==> nk.contains(k)) by {
                        if ok.contains(k) {
                            let j = choose|j: int| 0 <= j < ok.len() && ok[j] == k;
                            assert(nk[j] == k);
                        }
                    }
                }
            }
            assert forall|k: Seq<char>| #[trigger] new_self.view().contains_key(k) implies new_self.view()[k]
                == target[k] by {
                if k != host@ {
                    let j = choose|j: int| 0 <= j < ok.len() && ok[j] == k;
                    assert(old_self.entries@[j].host@ == k);
                    old_self.lemma_entry_is_lookup(j);
                    assert(j != idx);
                    assert(new_self.entries@[j] == old_self.entries@[j]);
                    new_self.lemma_entry_is_lookup(j);
                }
            }
            assert(new_self.view() =~= target);
            old_self.lemma_dom_is_keys();
        }
        self.entries = entries;
    }

    /// Drops the entry for `host`, if any.
    pub fn invalidate(&mut self, host: &str)
        ensures
            final(self).view() == old(self).view().remove(host@),
            cache_step(old(self).view(), CacheOp::Invalidated(host@), final(self).view()),
            final(self).view().len() == old(self).view().len() - if old(self).view().contains_key(
                host@,
            ) {
                1int
            } else {
                0int
            },
    {
        proof {
            use_type_invariant(&*self);
        }
        let ghost old_self = *self;
        let found = self.find(host);
        let i = match found {
            Some(i) => i,
            None => {
                proof {
                    assert(old_self.view() =~= old_self.view().remove(host@));
                }
                return;
            },
        };
        let mut entries: Vec<CacheEntry> = Vec::new();
        std::mem::swap(&mut entries, &mut self.entries);
        proof {
            assert(entries@ == old_self.entries@);
        }
        entries.remove(i);
        let ghost new_self = SourceCache { entries };
        proof {
            let ok = old_self.spec_keys();
            let nk = new_self.spec_keys();
            assert(nk =~= ok.remove(i as int));
            assert forall|a: int, b: int| 0 <= a < b < nk.len() implies nk[a] != nk[b] by {
                let oa = if a < i { a } else { a + 1 };
                let ob = if b < i { b } else { b + 1 };
                assert(nk[a] == ok[oa]);
                assert(nk[b] == ok[ob]);
            }
            assert(nk.no_duplicates());
            let target = old_self.view().remove(host@);
            assert forall|k: Seq<char>| #[trigger] new_self.view().contains_key(k) <==> target.contains_key(k) by {
                if nk.contains(k) {
                    let j = choose|j: int| 0 <= j < nk.len() && nk[j] == k;
                    let oj = if j < i { j } else { j + 1 };
                    assert(ok[oj] == k);
                    assert(oj != i);
                    assert(ok[i as int] == host@);
                }
                if k != host@ && ok.contains(k) {
                    let j = choose|j: int| 0 <= j < ok.len() && ok[j] == k;
                    assert(j != i);
                    let nj = if j < i { j } else { j - 1 };
                    assert(nk[nj] == k);
                }
            }
            assert forall|k: Seq<char>| #[trigger] new_self.view().contains_key(k) implies new_self.view()[k]
                == target[k] by {
                let j = choose|j: int| 0 <= j < nk.len() && nk[j] == k;
                let oj = if j < i { j } else { j + 1 };
                assert(new_self.entries@[j] == old_self.entries@[oj]);
                new_self.lemma_entry_is_lookup(j);
                old_self.lemma_entry_is_lookup(oj);
            }
            assert(new_self.view() =~= target);
            old_self.lemma_dom_is_keys();
        }
        self.entries = entries;
    }

    /// Drops every entry.
    pub fn clear(&mut self)
        ensures
            final(self).view() == Map::<Seq<char>, Source>::empty(),
            cache_step(old(self).view(), CacheOp::Cleared, final(self).view()),
    {
        self.entries = Vec::new();
        proof {
            assert(self.spec_keys() =~= Seq::<Seq<char>>::empty());
            assert(self.view() =~= Map::<Seq<char>, Source>::empty());
        }
    }

    /// Number of cached sources.
    pub fn len(&self) -> (r: usize)
        ensures
            r == self.view().len(),
    {
        proof {
            use_type_invariant(self);
            self.spec_keys().unique_seq_to_set();
            assert(self.view().dom() =~= self.spec_keys().to_set());
        }
        self.entries.len()
    }

    /// Whether nothing is cached.
    pub fn is_empty(&self) -> (r: bool)
        ensures
            r == (self.view().len() == 0),
    {
        self.len() == 0
    }

    /// The cached source for `host`, or else the first source that `discover`
    /// reports matching `host`, which is then cached. Discovery runs only on a
    /// cache miss; its errors are passed on and leave the cache unchanged.
    pub fn find_by_host<F>(&mut self, host: &str, discover: F) -> (r: Result<Source, Error>) where
        F: FnOnce() -> Result<Vec<Source>, Error>,
        requires
            call_requires(discover, ()),
        ensures
            r matches Ok(s) ==> cache_step(old(self).view(), CacheOp::Found(host@, s), final(self).view()),
            r is Err ==> cache_step(old(self).view(), CacheOp::Missed(host@), final(self).view()),
            old(self).view().contains_key(host@) ==> (r matches Ok(s) && s == old(self).view()[host@]
                && final(self).view() == old(self).view()),
            !old(self).view().contains_key(host@) ==> exists|out: Result<Vec<Source>, Error>|
                call_ensures(discover, (), out) && match out {
                    Err(e) => r == Err::<Source, Error>(e) && final(self).view() == old(self).view(),
                    Ok(sources) => match r {
                        Ok(s) => (exists|i: int| is_first_match(sources@, host@, i) && sources@[i]
                            == s) && final(self).view() == old(self).view().insert(host@, s)
                            && final(self).view().len() == old(self).view().len() + 1,
                        Err(e) => no_match_error(e, host@) && (forall|i: int|
                            0 <= i < sources@.len() ==> !source_matches(sources@[i], host@))
                            && final(self).view() == old(self).view(),
                    },
                },
    {
        if let Some(s) = self.get(host) {
            return Ok(s);
        }
        let discovered = discover();
        match discovered {
            Err(e) => Err(e),
            Ok(sources) => {
                let found = select_source(sources.as_slice(), host);
                match found {
                    Ok(s) => {
                        self.insert(host, s.clone());
                        Ok(s)
                    },
                    Err(e) => Err(e),
                }
            },
        }
    }
}

impl Default for SourceCache {
    fn default() -> (r: SourceCache)
        ensures
            r.view() == Map::<Seq<char>, Source>::empty(),
    {
        let c = SourceCache { entries: Vec::new() };
        proof {
            assert(c.spec_keys() =~= Seq::<Seq<char>>::empty());
            assert(c.view() =~= Map::<Seq<char>, Source>::empty());
        }
        c
    }
}

} // verus!
