//! Addressing a Plex Media Server: which server URLs are accepted, where a
//! request goes, and what a failed request means.
//!
//! URLs are parsed and serialized by the `url` crate; the checks made on them
//! are this module's.
use vstd::prelude::*;

use crate::text::{ascii_lowercase, decimal_text, join2, join3, owned, same_text, text_to_ascii_lowercase, unsigned_decimal};

verus! {

/// The product name that the adapter sends to Plex.
pub const PRODUCT_NAME: &'static str = "Trakkin";

/// The adapter version that the adapter sends to Plex.
pub const ADAPTER_VERSION: &'static str = "0.1.0";

/// The parts of a parsed URL that the adapter looks at.
#[derive(Clone, Debug, PartialEq, Eq)]
pub struct UrlParts {
    pub scheme: String,
    pub has_host: bool,
    pub username: String,
    pub has_password: bool,
    pub has_query: bool,
    pub has_fragment: bool,
    pub path: String,
    /// The ASCII serialization of the URL's origin.
    pub origin: String,
    /// The decoded pairs of the URL's query, in order.
    pub query_pairs: Vec<(String, String)>,
}

pub struct UrlPartsView {
    pub scheme: Seq<char>,
    pub has_host: bool,
    pub username: Seq<char>,
    pub has_password: bool,
    pub has_query: bool,
    pub has_fragment: bool,
    pub path: Seq<char>,
    pub origin: Seq<char>,
    pub query_pairs: Seq<(Seq<char>, Seq<char>)>,
}

impl View for UrlParts {
    type V = UrlPartsView;

    open spec fn view(&self) -> UrlPartsView {
        UrlPartsView {
            scheme: self.scheme@,
            has_host: self.has_host,
            username: self.username@,
            has_password: self.has_password,
            has_query: self.has_query,
            has_fragment: self.has_fragment,
            path: self.path@,
            origin: self.origin@,
            query_pairs: self.query_pairs.deep_view(),
        }
    }
}

/// The parts of the URL that `input` parses to, if it parses (`Url::parse`).
pub uninterp spec fn parsed_url(input: Seq<char>) -> Option<UrlPartsView>;

/// The serialization of the URL that `input` parses to, with its path set to
/// `path` (`Url::set_path`).
pub uninterp spec fn url_with_path(input: Seq<char>, path: Seq<char>) -> Option<Seq<char>>;

/// The serialization of `reference` resolved against the base URL `base`
/// (`Url::join`).
pub uninterp spec fn joined_url(base: Seq<char>, reference: Seq<char>) -> Option<Seq<char>>;

/// The serialization of the URL that `input` parses to, without its query
/// (`Url::set_query` with none).
pub uninterp spec fn url_without_query(input: Seq<char>) -> Option<Seq<char>>;

/// The serialization of the URL that `input` parses to, with the
/// form-encoded `pairs` appended to its query
/// (`Url::query_pairs_mut().extend_pairs`).
pub uninterp spec fn url_with_pairs(input: Seq<char>, pairs: Seq<(Seq<char>, Seq<char>)>) -> Option<Seq<char>>;

/// The serialization of the URL that `input` parses to, with its query
/// replaced by the form-encoded `pairs`, or removed when there are none.
pub open spec fn url_with_query(input: Seq<char>, pairs: Seq<(Seq<char>, Seq<char>)>) -> Option<Seq<char>> {
    match url_without_query(input) {
        Some(cleared) => if pairs.len() == 0 {
            Some(cleared)
        } else {
            url_with_pairs(cleared, pairs)
        },
        None => None,
    }
}

#[verifier::external_body]
fn parse_url(input: &str) -> (r: Option<UrlParts>)
    ensures
        r matches Some(p) ==> parsed_url(input@) == Some(p@),
        r is None ==> parsed_url(input@) is None,
{
    match url::Url::parse(input) {
        Ok(url) => Some(UrlParts {
            scheme: url.scheme().to_owned(),
            has_host: url.host_str().is_some(),
            username: url.username().to_owned(),
            has_password: url.password().is_some(),
            has_query: url.query().is_some(),
            has_fragment: url.fragment().is_some(),
            path: url.path().to_owned(),
            origin: url.origin().ascii_serialization(),
            query_pairs: url.query_pairs().map(|(k, v)| (k.into_owned(), v.into_owned())).collect(),
        }),
        Err(_) => None,
    }
}

#[verifier::external_body]
fn set_url_path(input: &str, path: &str) -> (r: Option<String>)
    ensures
        r.deep_view() == url_with_path(input@, path@),
{
    match url::Url::parse(input) {
        Ok(mut url) => {
            url.set_path(path);
            Some(url.into())
        },
        Err(_) => None,
    }
}

#[verifier::external_body]
fn join_url(base: &str, reference: &str) -> (r: Option<String>)
    ensures
        r.deep_view() == joined_url(base@, reference@),
{
    match url::Url::parse(base) {
        Ok(url) => match url.join(reference) {
            Ok(joined) => Some(joined.into()),
            Err(_) => None,
        },
        Err(_) => None,
    }
}

#[verifier::external_body]
fn clear_url_query(input: &str) -> (r: Option<String>)
    ensures
        r.deep_view() == url_without_query(input@),
{
    match url::Url::parse(input) {
        Ok(mut url) => {
            url.set_query(None);
            Some(url.into())
        },
        Err(_) => None,
    }
}

#[verifier::external_body]
fn append_url_pairs(input: &str, pairs: &Vec<(String, String)>) -> (r: Option<String>)
    ensures
        r.deep_view() == url_with_pairs(input@, pairs.deep_view()),
{
    match url::Url::parse(input) {
        Ok(mut url) => {
            url.query_pairs_mut().extend_pairs(pairs.iter());
            Some(url.into())
        },
        Err(_) => None,
    }
}

/// The URL that `input` parses to with its query replaced by `pairs`.
fn set_url_query(input: &str, pairs: &Vec<(String, String)>) -> (r: Option<String>)
    ensures
        r.deep_view() == url_with_query(input@, pairs.deep_view()),
{
    match clear_url_query(input) {
        Some(cleared) => if pairs.len() == 0 {
            Some(cleared)
        } else {
            append_url_pairs(cleared.as_str(), pairs)
        },
        None => None,
    }
}

/// `s` without its trailing slashes.
pub open spec fn trim_trailing_slashes(s: Seq<char>) -> Seq<char>
    decreases s.len(),
{
    if s.len() > 0 && s.last() == '/' {
        trim_trailing_slashes(s.drop_last())
    } else {
        s
    }
}

/// `s` without its trailing slashes.
fn text_trim_trailing_slashes(s: &str) -> (r: &str)
    ensures
        r@ == trim_trailing_slashes(s@),
{
    let mut end = s.unicode_len();
    assert(s@.take(end as int) =~= s@);
    while end > 0 && s.get_char(end - 1) == '/'
        invariant
            end <= s@.len(),
            trim_trailing_slashes(s@) == trim_trailing_slashes(s@.take(end as int)),
        decreases end,
    {
        assert(s@.take(end as int).drop_last() =~= s@.take(end - 1));
        end = end - 1;
    }
    let r = s.substring_char(0, end);
    assert(r@ =~= s@.take(end as int));
    r
}

/// A failure of a Plex request.
#[derive(Clone, Debug, PartialEq, Eq)]
pub enum PlexError {
    InvalidBaseUrl,
    InvalidPath,
    InvalidAssetUrl,
    /// The request could not be made or its reply could not be read; the
    /// HTTP status, when one was received.
    Transport(Option<u16>),
    /// Plex answered with an HTTP error status.
    Response(Option<u16>),
    /// Plex answered, but with a body that is not the expected JSON.
    InvalidResponse,
    AssetTooLarge,
    AssetNotFound,
}

impl PlexError {
    /// The HTTP status that the failure carries, if any.
    pub open spec fn status_of(self) -> Option<u16> {
        match self {
            PlexError::Transport(s) => s,
            PlexError::Response(s) => s,
            _ => None,
        }
    }

    /// The HTTP status that the failure carries, if any.
    pub fn status(&self) -> (r: Option<u16>)
        ensures
            r == self.status_of(),
    {
        match self {
            PlexError::Transport(status) => *status,
            PlexError::Response(status) => *status,
            _ => None,
        }
    }

    /// The failure described for people.
    pub fn message(&self) -> (r: &'static str)
        ensures
            r@ == plex_error_message(*self),
    {
        match self {
            PlexError::InvalidBaseUrl => "Plex server URL must be an HTTP(S) origin without credentials, query, or fragment",
            PlexError::InvalidPath => "Plex returned a request path outside the configured server origin",
            PlexError::InvalidAssetUrl => "Plex returned an invalid public asset URL",
            PlexError::Transport(_) => "Plex request failed",
            PlexError::Response(_) => "Plex returned an HTTP error status",
            PlexError::InvalidResponse => "Plex returned an invalid response",
            PlexError::AssetTooLarge => "Plex asset exceeds the requested size limit",
            PlexError::AssetNotFound => "Plex item does not expose the requested asset",
        }
    }
}

/// The reason phrase of an HTTP status, as `http::StatusCode` registers it.
pub uninterp spec fn status_reason_phrase(status: u16) -> Option<Seq<char>>;

/// The reason phrase of an HTTP status (`StatusCode::from_u16`, then
/// `StatusCode::canonical_reason`): none for a number that is no status or
/// has no registered phrase.
#[verifier::external_body]
fn status_reason(status: u16) -> (r: Option<&'static str>)
    ensures
        r.deep_view() == status_reason_phrase(status),
{
    match reqwest::StatusCode::from_u16(status) {
        Ok(code) => code.canonical_reason(),
        Err(_) => None,
    }
}

/// How a Plex failure reads: an HTTP error status by its number and reason
/// phrase, any other failure by its description.
pub open spec fn plex_error_text_of(error: PlexError) -> Seq<char> {
    match error {
        PlexError::Response(Some(status)) => "Plex returned HTTP "@ + decimal_text(status as int) + match status_reason_phrase(
            status,
        ) {
            Some(phrase) => " "@ + phrase,
            None => seq![],
        },
        _ => plex_error_message(error),
    }
}

impl PlexError {
    /// How the failure reads.
    pub fn text(&self) -> (r: String)
        ensures
            r@ == plex_error_text_of(*self),
    {
        match self {
            PlexError::Response(Some(status)) => {
                let number = unsigned_decimal(*status as u64);
                match status_reason(*status) {
                    Some(phrase) => {
                        let r = join3("Plex returned HTTP ", number.as_str(), " ");
                        let r = join2(r.as_str(), phrase);
                        proof {
                            reveal_strlit(" ");
                        }
                        assert(r@ =~= plex_error_text_of(*self));
                        r
                    },
                    None => {
                        let r = join2("Plex returned HTTP ", number.as_str());
                        assert(r@ =~= plex_error_text_of(*self));
                        r
                    },
                }
            },
            _ => owned(self.message()),
        }
    }
}

/// The description of a Plex failure.
pub open spec fn plex_error_message(error: PlexError) -> Seq<char> {
    match error {
        PlexError::InvalidBaseUrl => "Plex server URL must be an HTTP(S) origin without credentials, query, or fragment"@,
        PlexError::InvalidPath => "Plex returned a request path outside the configured server origin"@,
        PlexError::InvalidAssetUrl => "Plex returned an invalid public asset URL"@,
        PlexError::Transport(_) => "Plex request failed"@,
        PlexError::Response(_) => "Plex returned an HTTP error status"@,
        PlexError::InvalidResponse => "Plex returned an invalid response"@,
        PlexError::AssetTooLarge => "Plex asset exceeds the requested size limit"@,
        PlexError::AssetNotFound => "Plex item does not expose the requested asset"@,
    }
}

/// A URL that may address a server or an asset: HTTP or HTTPS, with a host and
/// without credentials or a fragment.
pub open spec fn is_plain_http_url(parts: UrlPartsView) -> bool {
    &&& (parts.scheme == "http"@ || parts.scheme == "https"@)
    &&& parts.has_host
    &&& parts.username.len() == 0
    &&& !parts.has_password
    &&& !parts.has_fragment
}

/// The normalized server URL: the parsed URL with its path ending in exactly
/// one slash, when the text is an HTTP(S) URL with a host and without
/// credentials, query or fragment.
pub open spec fn normalized_base_url(value: Seq<char>) -> Result<Seq<char>, PlexError> {
    match parsed_url(value) {
        None => Err(PlexError::InvalidBaseUrl),
        Some(parts) => if !is_plain_http_url(parts) || parts.has_query {
            Err(PlexError::InvalidBaseUrl)
        } else {
            match url_with_path(value, trim_trailing_slashes(parts.path) + "/"@) {
                Some(url) => Ok(url),
                None => Err(PlexError::InvalidBaseUrl),
            }
        },
    }
}

/// Whether a query key is the Plex token key, in any letter case.
pub open spec fn is_plex_token_key(key: Seq<char>) -> bool {
    ascii_lowercase(key) == ascii_lowercase("X-Plex-Token"@)
}

/// The query pairs other than the Plex token, in order.
pub open spec fn pairs_without_token(pairs: Seq<(Seq<char>, Seq<char>)>) -> Seq<(Seq<char>, Seq<char>)>
    decreases pairs.len(),
{
    if pairs.len() == 0 {
        seq![]
    } else {
        let rest = pairs_without_token(pairs.drop_last());
        if is_plex_token_key(pairs.last().0) {
            rest
        } else {
            rest.push(pairs.last())
        }
    }
}

/// The URL with every Plex token removed from its query.
pub open spec fn url_without_token(url: Seq<char>) -> Option<Seq<char>> {
    match parsed_url(url) {
        Some(parts) => url_with_query(url, pairs_without_token(parts.query_pairs)),
        None => None,
    }
}

/// Where an asset path leads: nothing when it is no absolute URL (it is then a
/// server path); the URL without Plex tokens when it is a plain HTTP(S) URL;
/// an invalid asset URL otherwise.
pub open spec fn public_asset_url_of(path: Seq<char>) -> Result<Option<Seq<char>>, PlexError> {
    match parsed_url(path) {
        None => Ok(None),
        Some(parts) => if !is_plain_http_url(parts) {
            Err(PlexError::InvalidAssetUrl)
        } else {
            match url_without_token(path) {
                Some(url) => Ok(Some(url)),
                None => Err(PlexError::InvalidAssetUrl),
            }
        },
    }
}

/// `path` without its leading slashes.
pub open spec fn trim_leading_slashes(s: Seq<char>) -> Seq<char>
    decreases s.len(),
{
    if s.len() > 0 && s[0] == '/' {
        trim_leading_slashes(s.drop_first())
    } else {
        s
    }
}

/// `s` without its leading slashes.
fn text_trim_leading_slashes(s: &str) -> (r: &str)
    ensures
        r@ == trim_leading_slashes(s@),
{
    let len = s.unicode_len();
    let mut start: usize = 0;
    assert(s@.skip(0) =~= s@);
    while start < len && s.get_char(start) == '/'
        invariant
            start <= len,
            len == s@.len(),
            trim_leading_slashes(s@) == trim_leading_slashes(s@.skip(start as int)),
        decreases len - start,
    {
        assert(s@.skip(start as int).drop_first() =~= s@.skip(start + 1));
        start = start + 1;
    }
    let r = s.substring_char(start, len);
    assert(r@ =~= s@.skip(start as int));
    r
}

/// The URL of a request for `path` on the server at `base_url`: the path
/// resolved against the server URL, refused when it leaves the server's
/// origin, and without Plex tokens in its query.
pub open spec fn request_url_of(base_url: Seq<char>, path: Seq<char>) -> Result<Seq<char>, PlexError> {
    match joined_url(base_url, trim_leading_slashes(path)) {
        None => Err(PlexError::InvalidPath),
        Some(url) => match (parsed_url(url), parsed_url(base_url)) {
            (Some(target), Some(base)) => if target.origin != base.origin {
                Err(PlexError::InvalidPath)
            } else {
                match url_without_token(url) {
                    Some(clean) => Ok(clean),
                    None => Err(PlexError::InvalidPath),
                }
            },
            _ => Err(PlexError::InvalidPath),
        },
    }
}

/// The text of a URL result.
pub open spec fn url_result(r: Result<String, PlexError>) -> Result<Seq<char>, PlexError> {
    match r {
        Ok(url) => Ok(url@),
        Err(e) => Err(e),
    }
}

fn is_http_scheme(parts: &UrlParts) -> (r: bool)
    ensures
        r == is_plain_http_url(parts@),
{
    (same_text(parts.scheme.as_str(), "http") || same_text(parts.scheme.as_str(), "https"))
        && parts.has_host && parts.username.as_str().is_empty() && !parts.has_password
        && !parts.has_fragment
}

/// The normalized server URL: an HTTP(S) URL with a host and without
/// credentials, query or fragment, its path ending in one slash.
pub fn normalize_base_url(value: &str) -> (r: Result<String, PlexError>)
    ensures
        url_result(r) == normalized_base_url(value@),
{
    let parts = match parse_url(value) {
        Some(parts) => parts,
        None => return Err(PlexError::InvalidBaseUrl),
    };
    if !is_http_scheme(&parts) || parts.has_query {
        return Err(PlexError::InvalidBaseUrl);
    }
    let path = join2(text_trim_trailing_slashes(parts.path.as_str()), "/");
    match set_url_path(value, path.as_str()) {
        Some(url) => Ok(url),
        None => Err(PlexError::InvalidBaseUrl),
    }
}

fn is_token_key(key: &str) -> (r: bool)
    ensures
        r == is_plex_token_key(key@),
{
    let lower = text_to_ascii_lowercase(key);
    let token = text_to_ascii_lowercase("X-Plex-Token");
    same_text(lower.as_str(), token.as_str())
}

fn remove_plex_token(url: &str) -> (r: Option<String>)
    ensures
        r.deep_view() == url_without_token(url@),
{
    let parts = match parse_url(url) {
        Some(parts) => parts,
        None => return None,
    };
    let mut kept: Vec<(String, String)> = Vec::new();
    let mut i: usize = 0;
    while i < parts.query_pairs.len()
        invariant
            i <= parts.query_pairs.len(),
            kept.deep_view() == pairs_without_token(parts.query_pairs.deep_view().take(i as int)),
        decreases parts.query_pairs.len() - i,
    {
        let ghost taken = parts.query_pairs.deep_view().take(i as int + 1);
        assert(taken.drop_last() =~= parts.query_pairs.deep_view().take(i as int));
        assert(taken.last() == parts.query_pairs.deep_view()[i as int]);
        let (key, value) = &parts.query_pairs[i];
        if !is_token_key(key.as_str()) {
            crate::sdk::push_item(&mut kept, (key.clone(), value.clone()));
        }
        i = i + 1;
    }
    assert(parts.query_pairs.deep_view().take(parts.query_pairs.len() as int)
        =~= parts.query_pairs.deep_view());
    set_url_query(url, &kept)
}

/// Where an asset path leads: a server path (nothing), or a public HTTP(S) URL
/// without Plex tokens.
pub fn public_asset_url(path: &str) -> (r: Result<Option<String>, PlexError>)
    ensures
        match r {
            Ok(url) => public_asset_url_of(path@) == Ok::<Option<Seq<char>>, PlexError>(url.deep_view()),
            Err(e) => public_asset_url_of(path@) == Err::<Option<Seq<char>>, PlexError>(e),
        },
{
    let parts = match parse_url(path) {
        Some(parts) => parts,
        None => return Ok(None),
    };
    if !is_http_scheme(&parts) {
        return Err(PlexError::InvalidAssetUrl);
    }
    match remove_plex_token(path) {
        Some(url) => Ok(Some(url)),
        None => Err(PlexError::InvalidAssetUrl),
    }
}

/// The parts of a Plex Media Server client that decide where its requests
/// go and which headers they carry.
#[derive(Clone, Debug)]
pub struct PlexClient {
    base_url: String,
    token: Option<String>,
    client_identifier: String,
}

impl PlexClient {
    /// The server URL, normalized.
    pub closed spec fn base_url_view(&self) -> Seq<char> {
        self.base_url@
    }

    /// The token sent with each request, if any.
    pub closed spec fn token_view(&self) -> Option<Seq<char>> {
        self.token.deep_view()
    }

    /// The client identifier sent with each request.
    pub closed spec fn client_identifier_view(&self) -> Seq<char> {
        self.client_identifier@
    }

    /// A client of the server at `base_url`, when the URL is acceptable.
    pub fn new(base_url: &str, token: Option<String>, client_identifier: &str) -> (r: Result<PlexClient, PlexError>)
        ensures
            r is Ok <==> normalized_base_url(base_url@) is Ok,
            r matches Ok(c) ==> Ok::<Seq<char>, PlexError>(c.base_url_view()) == normalized_base_url(base_url@)
                && c.token_view() == token.deep_view() && c.client_identifier_view()
                == client_identifier@,
            r matches Err(e) ==> Err::<Seq<char>, PlexError>(e) == normalized_base_url(base_url@),
    {
        match normalize_base_url(base_url) {
            Ok(url) => Ok(PlexClient { base_url: url, token, client_identifier: owned(client_identifier) }),
            Err(error) => Err(error),
        }
    }

    /// The normalized server URL.
    pub fn base_url(&self) -> (r: &str)
        ensures
            r@ == self.base_url_view(),
    {
        self.base_url.as_str()
    }

    /// The URL of a request for a server path.
    pub fn request_url(&self, path: &str) -> (r: Result<String, PlexError>)
        ensures
            url_result(r) == request_url_of(self.base_url_view(), path@),
    {
        let joined = match join_url(self.base_url.as_str(), text_trim_leading_slashes(path)) {
            Some(joined) => joined,
            None => return Err(PlexError::InvalidPath),
        };
        let target = parse_url(joined.as_str());
        let base = parse_url(self.base_url.as_str());
        match (target, base) {
            (Some(target), Some(base)) => {
                if !same_text(target.origin.as_str(), base.origin.as_str()) {
                    return Err(PlexError::InvalidPath);
                }
            },
            _ => return Err(PlexError::InvalidPath),
        }
        match remove_plex_token(joined.as_str()) {
            Some(url) => Ok(url),
            None => Err(PlexError::InvalidPath),
        }
    }

    /// The headers of a request to the server: JSON accepted, the client's
    /// identifier, the product and its version, and the token when there is
    /// one.
    pub fn request_headers(&self) -> (r: Vec<(String, String)>)
        ensures
            r.deep_view() == request_headers_of(self.client_identifier_view(), self.token_view()),
    {
        let mut headers: Vec<(String, String)> = Vec::new();
        crate::sdk::push_item(&mut headers, (owned("Accept"), owned("application/json")));
        crate::sdk::push_item(&mut headers, (owned("X-Plex-Client-Identifier"), self.client_identifier.clone()));
        crate::sdk::push_item(&mut headers, (owned("X-Plex-Product"), owned(PRODUCT_NAME)));
        crate::sdk::push_item(&mut headers, (owned("X-Plex-Version"), owned(ADAPTER_VERSION)));
        match &self.token {
            Some(token) => crate::sdk::push_item(&mut headers, (owned("X-Plex-Token"), token.clone())),
            None => {},
        }
        headers
    }
}

/// The headers of a request to the server.
pub open spec fn request_headers_of(client_identifier: Seq<char>, token: Option<Seq<char>>) -> Seq<(Seq<char>, Seq<char>)> {
    let fixed = seq![
        ("Accept"@, "application/json"@),
        ("X-Plex-Client-Identifier"@, client_identifier),
        ("X-Plex-Product"@, PRODUCT_NAME@),
        ("X-Plex-Version"@, ADAPTER_VERSION@),
    ];
    match token {
        Some(t) => fixed.push(("X-Plex-Token"@, t)),
        None => fixed,
    }
}

/// The content type of an asset reply: the media type before any parameters,
/// or `application/octet-stream` without the header.
pub open spec fn asset_content_type_of(header: Option<Seq<char>>) -> Seq<char> {
    match header {
        Some(value) => match crate::text::split_once(value, ";"@) {
            Some((media_type, _)) => media_type,
            None => value,
        },
        None => "application/octet-stream"@,
    }
}

/// The content type of an asset reply, from its `Content-Type` header.
pub fn asset_content_type(header: Option<&str>) -> (r: String)
    ensures
        r@ == asset_content_type_of(header.deep_view()),
{
    match header {
        Some(value) => {
            let parts = crate::text::text_split_once(value, ";");
            match parts {
                Some(p) => {
                    proof {
                        crate::text::lemma_split_once_at(value@, ";"@, p.0@.len() as int);
                    }
                    owned(p.0)
                },
                None => owned(value),
            }
        },
        None => owned("application/octet-stream"),
    }
}

/// Whether a declared content length stays within the limit.
pub fn asset_length_allowed(content_length: Option<u64>, maximum_bytes: u64) -> (r: bool)
    ensures
        r == match content_length {
            Some(length) => length <= maximum_bytes,
            None => true,
        },
{
    match content_length {
        Some(length) => length <= maximum_bytes,
        None => true,
    }
}

/// Whether another chunk may be added to the bytes received so far without
/// passing the limit; the running total saturates at the largest `usize`.
pub fn asset_chunk_allowed(received: usize, chunk: usize, maximum_bytes: u64) -> (r: bool)
    ensures
        r == ((if received + chunk > usize::MAX { usize::MAX as int } else { received + chunk })
            <= maximum_bytes),
{
    let total = match received.checked_add(chunk) {
        Some(total) => total,
        None => usize::MAX,
    };
    total as u64 <= maximum_bytes
}

} // verus!
