//! How Plex library records become provider items, relations, references and
//! state observations.
use vstd::prelude::*;
use vstd::utf8::*;

use crate::model::{MediaItem, MediaItemView, PlexGuidView, TagView};
use crate::sdk::{
    push_item, Attribute, AttributeView, BinaryAssetReference, BinaryAssetReferenceView,
    CatalogRelation, CatalogRelationView, ConfigurationValueKind, DecimalValue, Key, KeyView,
    Observation, ObservationView, PortableReference, PortableReferenceView, ProviderItem,
    ProviderItemView, RatingScale, StateDeletion, StateField, StateFieldDescriptor,
    StateFieldDescriptorView, StateFieldNumericRange, StateFieldQuantizer, StateFieldView,
    StateObservation, StateObservationView, Subject, SubjectReference, Term, TermView, Value,
    ValueKind, ValueKindView, ValueView,
};
use crate::text::{
    ascii_lowercase, decimal_text, has_prefix, is_first_occurrence, join2, join3,
    lemma_split_after_free_prefix, lemma_split_once_at, occurs_at, owned, same_bytes, same_text,
    signed_decimal, split_once, text_chars, text_from_utf8, text_split_once, text_strip_prefix,
    text_to_ascii_lowercase, utf8_bytes,
};

verus! {

broadcast use {encode_utf8_valid_utf8, encode_utf8_decode_utf8};

pub const KEY_NAMESPACE: &'static str = "plex";
pub const MEDIA_NAMESPACE: &'static str = "dev.trakkin.media";
pub const STATE_NAMESPACE: &'static str = "dev.trakkin.state";
pub const UNIT_NAMESPACE: &'static str = "dev.trakkin.unit";

pub const PLEX_REFERENCE_NAMESPACE: &'static str = "tv.plex";
pub const IMDB_REFERENCE_NAMESPACE: &'static str = "com.imdb";
pub const TMDB_REFERENCE_NAMESPACE: &'static str = "org.themoviedb";
pub const TVDB_REFERENCE_NAMESPACE: &'static str = "com.thetvdb";
pub const MUSICBRAINZ_REFERENCE_NAMESPACE: &'static str = "org.musicbrainz";
pub const REFERENCE_NAMESPACES: [&'static str; 5] = [
    "tv.plex",
    "com.imdb",
    "org.themoviedb",
    "com.thetvdb",
    "org.musicbrainz",
];

pub const WATCHED_FIELD: &'static str = "watched";
pub const PROGRESS_FIELD: &'static str = "progress";
pub const RATING_FIELD: &'static str = "rating";

/// Which portable references of a library section's items are recommended as
/// mapping roots.
#[derive(Clone, Copy, Debug, Default, Eq, PartialEq, Structural)]
pub enum RecommendationPolicy {
    #[default]
    Disabled,
    Movie,
    SeriesTmdb,
    SeriesTvdb,
}

pub const MOVIE_AGENT: &'static str = "tv.plex.agents.movie";
pub const SERIES_AGENT: &'static str = "tv.plex.agents.series";
pub const SHOW_ORDERING_SETTING: &'static str = "showOrdering";

/// How a library section chooses the recommendation policy of its items:
/// sections of the Plex movie agent recommend movie roots; sections of the
/// Plex series agent recommend the roots of the database that orders their
/// episodes, the section's own ordering unless an item has its own; sections
/// of other agents recommend none.
#[derive(Clone, Copy, Debug, Default, Eq, PartialEq, Structural)]
pub enum SectionPolicy {
    #[default]
    Unsupported,
    Movie,
    /// A series section, with the policy that the section's ordering gives.
    Series(RecommendationPolicy),
}

/// The policy that an episode ordering gives: The Movie Database orderings
/// (`tmdb...`) recommend TMDB roots, TheTVDB orderings (`tvdb...`, `aired`,
/// `dvd`, `absolute`) TVDB roots; another ordering gives none.
pub open spec fn ordering_policy_of(ordering: Seq<char>) -> Option<RecommendationPolicy> {
    if has_prefix(ordering, "tmdb"@) {
        Some(RecommendationPolicy::SeriesTmdb)
    } else if has_prefix(ordering, "tvdb"@) || ordering == "aired"@ || ordering == "dvd"@ || ordering == "absolute"@ {
        Some(RecommendationPolicy::SeriesTvdb)
    } else {
        None
    }
}

/// The policy that an episode ordering gives.
pub fn ordering_policy(ordering: &str) -> (r: Option<RecommendationPolicy>)
    ensures
        r == ordering_policy_of(ordering@),
{
    if text_strip_prefix(ordering, "tmdb").is_some() {
        Some(RecommendationPolicy::SeriesTmdb)
    } else if text_strip_prefix(ordering, "tvdb").is_some() || same_text(ordering, "aired") || same_text(ordering, "dvd")
        || same_text(ordering, "absolute") {
        Some(RecommendationPolicy::SeriesTvdb)
    } else {
        None
    }
}

/// Whether a section's agent is the Plex series agent, whose sections order
/// episodes by a preference of their own.
pub fn is_series_agent(agent: &str) -> (r: bool)
    ensures
        r == (agent@ == SERIES_AGENT@),
{
    same_text(agent, SERIES_AGENT)
}

/// The policy of a section, from its agent and, for series, the episode
/// ordering that its preferences name (a series section without a known
/// ordering recommends nothing for items without their own).
pub open spec fn section_policy_of(agent: Seq<char>, ordering: Option<Seq<char>>) -> SectionPolicy {
    if agent == MOVIE_AGENT@ {
        SectionPolicy::Movie
    } else if agent == SERIES_AGENT@ {
        SectionPolicy::Series(
            match ordering {
                Some(o) => match ordering_policy_of(o) {
                    Some(p) => p,
                    None => RecommendationPolicy::Disabled,
                },
                None => RecommendationPolicy::Disabled,
            },
        )
    } else {
        SectionPolicy::Unsupported
    }
}

/// The policy of a section, from its agent and its episode ordering.
pub fn section_policy(agent: &str, ordering: Option<&str>) -> (r: SectionPolicy)
    ensures
        r == section_policy_of(agent@, ordering.deep_view()),
{
    if same_text(agent, MOVIE_AGENT) {
        SectionPolicy::Movie
    } else if same_text(agent, SERIES_AGENT) {
        let policy = match ordering {
            Some(o) => match ordering_policy(o) {
                Some(p) => p,
                None => RecommendationPolicy::Disabled,
            },
            None => RecommendationPolicy::Disabled,
        };
        SectionPolicy::Series(policy)
    } else {
        SectionPolicy::Unsupported
    }
}

/// The episode ordering that a section's preferences name: the value of the
/// first `showOrdering` setting with a text value.
pub open spec fn show_ordering_setting_of(settings: Seq<(Seq<char>, Option<Seq<char>>)>) -> Option<Seq<char>>
    decreases settings.len(),
{
    if settings.len() == 0 {
        None
    } else if settings[0].0 == SHOW_ORDERING_SETTING@ && settings[0].1 is Some {
        settings[0].1
    } else {
        show_ordering_setting_of(settings.drop_first())
    }
}

/// The episode ordering that a section's preferences name, from its settings
/// as identifiers and text values.
pub fn show_ordering_setting(settings: &Vec<(String, Option<String>)>) -> (r: Option<&str>)
    ensures
        r.deep_view() == show_ordering_setting_of(settings.deep_view()),
{
    let ghost all = settings.deep_view();
    assert(all.skip(0) =~= all);
    let mut i: usize = 0;
    while i < settings.len()
        invariant
            i <= settings.len(),
            all == settings.deep_view(),
            show_ordering_setting_of(all) == show_ordering_setting_of(all.skip(i as int)),
        decreases settings.len() - i,
    {
        proof {
            assert(all.skip(i as int).drop_first() =~= all.skip(i + 1));
        }
        let (id, value) = &settings[i];
        if same_text(id.as_str(), SHOW_ORDERING_SETTING) {
            match value {
                Some(v) => return Some(v.as_str()),
                None => {},
            }
        }
        i = i + 1;
    }
    None
}

/// The policy of an item of a section: its own episode ordering decides in a
/// series section when it names a known one.
pub open spec fn item_policy_of(section: SectionPolicy, item_ordering: Option<Seq<char>>) -> RecommendationPolicy {
    match section {
        SectionPolicy::Unsupported => RecommendationPolicy::Disabled,
        SectionPolicy::Movie => RecommendationPolicy::Movie,
        SectionPolicy::Series(default) => match item_ordering {
            Some(o) => match ordering_policy_of(o) {
                Some(p) => p,
                None => default,
            },
            None => default,
        },
    }
}

/// The policy of an item of a section.
pub fn item_policy(section: SectionPolicy, item: &MediaItem) -> (r: RecommendationPolicy)
    ensures
        r == item_policy_of(section, item@.show_ordering),
{
    match section {
        SectionPolicy::Unsupported => RecommendationPolicy::Disabled,
        SectionPolicy::Movie => RecommendationPolicy::Movie,
        SectionPolicy::Series(default) => match &item.show_ordering {
            Some(o) => match ordering_policy(o.as_str()) {
                Some(p) => p,
                None => default,
            },
            None => default,
        },
    }
}

// ---------------------------------------------------------------------------
// Keys and terms
// ---------------------------------------------------------------------------

/// The key in the Plex namespace whose value is the UTF-8 encoding of `text`.
pub open spec fn key_view(text: Seq<char>) -> KeyView {
    KeyView { namespace: KEY_NAMESPACE@, value: encode_utf8(text) }
}

/// The text after `prefix` in a Plex key whose value is UTF-8 text that
/// begins with `prefix`; nothing for any other key.
pub open spec fn parsed_key(key: KeyView, prefix: Seq<char>) -> Option<Seq<char>> {
    if key.namespace == KEY_NAMESPACE@ && valid_utf8(key.value) && has_prefix(
        decode_utf8(key.value),
        prefix,
    ) {
        Some(decode_utf8(key.value).skip(prefix.len() as int))
    } else {
        None
    }
}

pub open spec fn term_view(namespace: Seq<char>, name: Seq<char>) -> TermView {
    TermView { namespace, name }
}

/// A key in the Plex namespace holding `value`.
pub fn key(value: &str) -> (r: Key)
    ensures
        r@ == key_view(value@),
{
    Key { namespace: owned(KEY_NAMESPACE), value: utf8_bytes(value) }
}

/// The key of the account of the server with this machine identifier.
pub fn account_key(machine_identifier: &str) -> (r: Key)
    ensures
        r@ == key_view("account:"@ + machine_identifier@),
{
    key(join2("account:", machine_identifier).as_str())
}

/// The key of the source that stands for a library section.
pub fn source_key(section_key: &str) -> (r: Key)
    ensures
        r@ == key_view("library:"@ + section_key@),
{
    key(join2("library:", section_key).as_str())
}

/// The key of the provider item that stands for a media item.
pub fn item_key(rating_key: &str) -> (r: Key)
    ensures
        r@ == key_view("item:"@ + rating_key@),
{
    key(join2("item:", rating_key).as_str())
}

/// The key of the catalog relation that places a media item.
pub fn relation_key(rating_key: &str) -> (r: Key)
    ensures
        r@ == key_view("relation:"@ + rating_key@),
{
    key(join2("relation:", rating_key).as_str())
}

/// The library section key that a source key names.
pub fn parse_source_key(value: &Key) -> (r: Option<&str>)
    ensures
        r.deep_view() == parsed_key(value@, "library:"@),
{
    parse_prefixed_key(value, "library:")
}

/// The rating key that a provider item key names.
pub fn parse_item_key(value: &Key) -> (r: Option<&str>)
    ensures
        r.deep_view() == parsed_key(value@, "item:"@),
{
    parse_prefixed_key(value, "item:")
}

fn parse_prefixed_key<'a>(value: &'a Key, prefix: &str) -> (r: Option<&'a str>)
    ensures
        r.deep_view() == parsed_key(value@, prefix@),
{
    if !same_text(value.namespace.as_str(), KEY_NAMESPACE) {
        return None;
    }
    let text = match text_from_utf8(value.value.as_slice()) {
        Some(text) => text,
        None => return None,
    };
    text_strip_prefix(text, prefix)
}

/// A term of a namespace.
pub fn term(namespace: &str, name: &str) -> (r: Term)
    ensures
        r@ == term_view(namespace@, name@),
{
    Term { namespace: owned(namespace), name: owned(name) }
}

/// Law: a key made for a prefix parses back to the text it was made from,
/// and a key made for one prefix does not parse under the other.
pub proof fn lemma_keys_parse_back(text: Seq<char>)
    ensures
        parsed_key(key_view("item:"@ + text), "item:"@) == Some(text),
        parsed_key(key_view("library:"@ + text), "library:"@) == Some(text),
        parsed_key(key_view("library:"@ + text), "item:"@) is None,
        parsed_key(key_view("item:"@ + text), "library:"@) is None,
{
    reveal_strlit("item:");
    reveal_strlit("library:");
    let item = "item:"@ + text;
    let library = "library:"@ + text;
    assert(decode_utf8(encode_utf8(item)) == item);
    assert(decode_utf8(encode_utf8(library)) == library);
    assert(item.take(5) =~= "item:"@);
    assert(item.skip(5) =~= text);
    assert(library.take(8) =~= "library:"@);
    assert(library.skip(8) =~= text);
    assert(item[0] == 'i');
    assert(library[0] == 'l');
    if item.len() >= 8 {
        assert(item.take(8)[0] == 'i');
    }
    assert(library.take(5)[0] == 'l');
}

/// Law: a key outside the Plex namespace never parses.
pub proof fn lemma_foreign_keys_do_not_parse(key: KeyView, prefix: Seq<char>)
    requires
        key.namespace != KEY_NAMESPACE@,
    ensures
        parsed_key(key, prefix) is None,
{
}

// ---------------------------------------------------------------------------
// Portable references
// ---------------------------------------------------------------------------

/// A portable reference whose value is the UTF-8 encoding of `text`.
pub open spec fn reference_view(namespace: Seq<char>, text: Seq<char>) -> PortableReferenceView {
    PortableReferenceView { namespace, value: encode_utf8(text) }
}

/// The IMDb resource of an identifier, by its two-letter prefix.
pub open spec fn imdb_resource_of(identifier: Seq<char>) -> Option<Seq<char>> {
    if has_prefix(identifier, "tt"@) {
        Some("title"@)
    } else if has_prefix(identifier, "nm"@) {
        Some("name"@)
    } else if has_prefix(identifier, "co"@) {
        Some("company"@)
    } else {
        None
    }
}

/// The TMDB resource of a Plex media type.
pub open spec fn tmdb_resource_of(media_type: Seq<char>) -> Option<Seq<char>> {
    if media_type == "movie"@ {
        Some("movie"@)
    } else if media_type == "show"@ {
        Some("tv"@)
    } else if media_type == "season"@ {
        Some("tv-season"@)
    } else if media_type == "episode"@ {
        Some("tv-episode"@)
    } else if media_type == "person"@ {
        Some("person"@)
    } else {
        None
    }
}

/// The TheTVDB resource of a Plex media type.
pub open spec fn tvdb_resource_of(media_type: Seq<char>) -> Option<Seq<char>> {
    if media_type == "movie"@ {
        Some("movies"@)
    } else if media_type == "show"@ {
        Some("series"@)
    } else if media_type == "season"@ {
        Some("seasons"@)
    } else if media_type == "episode"@ {
        Some("episodes"@)
    } else if media_type == "person"@ {
        Some("people"@)
    } else {
        None
    }
}

/// The MusicBrainz resource of a Plex media type.
pub open spec fn musicbrainz_resource_of(media_type: Seq<char>) -> Option<Seq<char>> {
    if media_type == "artist"@ {
        Some("artist"@)
    } else if media_type == "album"@ {
        Some("release-group"@)
    } else if media_type == "track"@ {
        Some("recording"@)
    } else {
        None
    }
}

/// A character that may stand in a label of a reverse-DNS scheme.
pub open spec fn dns_label_char(c: char) -> bool {
    ('a' <= c && c <= 'z') || ('0' <= c && c <= '9') || c == '-'
}

/// `scheme` is a reverse-DNS name: it holds a dot, and the labels between its
/// dots are non-empty, made of lowercase letters, digits and hyphens, and
/// neither begin nor end with a hyphen.
pub open spec fn is_reverse_dns_scheme(scheme: Seq<char>) -> bool {
    &&& exists|i: int| 0 <= i < scheme.len() && scheme[i] == '.'
    &&& forall|i: int| 0 <= i < scheme.len() ==> dns_label_char(#[trigger] scheme[i]) || scheme[i] == '.'
    &&& forall|i: int|
        0 <= i < scheme.len() && #[trigger] scheme[i] == '.' ==> {
            &&& 0 < i && i + 1 < scheme.len()
            &&& scheme[i - 1] != '.' && scheme[i - 1] != '-'
            &&& scheme[i + 1] != '.' && scheme[i + 1] != '-'
        }
    &&& scheme.len() > 0 ==> scheme[0] != '-' && scheme.last() != '-'
}

/// The reference that a resource-qualified identifier makes, if the resource
/// is known.
pub open spec fn resource_reference(namespace: Seq<char>, resource: Option<Seq<char>>, identifier: Seq<char>) -> Option<PortableReferenceView> {
    match resource {
        Some(resource) => Some(reference_view(namespace, resource + "/"@ + identifier)),
        None => None,
    }
}

/// The longest value, in bytes, that a portable reference may have.
pub const MAX_REFERENCE_VALUE_BYTES: usize = 1024;

/// The portable reference that a Plex GUID stands for, for an item of the
/// given media type: the GUID's reference when its value is not longer than
/// the limit.
pub open spec fn portable_reference_of(guid: Seq<char>, media_type: Seq<char>) -> Option<PortableReferenceView> {
    match parsed_reference_of(guid, media_type) {
        Some(r) => if r.value.len() <= MAX_REFERENCE_VALUE_BYTES {
            Some(r)
        } else {
            None
        },
        None => None,
    }
}

/// The reference that a Plex GUID `scheme://identifier` parses to, for an
/// item of the given media type, whatever the length of its value.
pub open spec fn parsed_reference_of(guid: Seq<char>, media_type: Seq<char>) -> Option<PortableReferenceView> {
    match split_once(guid, "://"@) {
        None => None,
        Some((raw_scheme, identifier)) => {
            let scheme = ascii_lowercase(raw_scheme);
            if identifier.len() == 0 {
                None
            } else if scheme == "plex"@ {
                Some(reference_view(PLEX_REFERENCE_NAMESPACE@, identifier))
            } else if scheme == "imdb"@ {
                resource_reference(IMDB_REFERENCE_NAMESPACE@, imdb_resource_of(identifier), identifier)
            } else if scheme == "tmdb"@ {
                resource_reference(TMDB_REFERENCE_NAMESPACE@, tmdb_resource_of(media_type), identifier)
            } else if scheme == "tvdb"@ {
                resource_reference(TVDB_REFERENCE_NAMESPACE@, tvdb_resource_of(media_type), identifier)
            } else if scheme == "mbid"@ {
                resource_reference(
                    MUSICBRAINZ_REFERENCE_NAMESPACE@,
                    musicbrainz_resource_of(media_type),
                    identifier,
                )
            } else if is_reverse_dns_scheme(scheme) {
                Some(reference_view(scheme, identifier))
            } else {
                None
            }
        },
    }
}

/// The Plex GUID scheme of a reference namespace and resource, when the
/// resource is one that the namespace uses.
pub open spec fn guid_scheme_of(namespace: Seq<char>, resource: Seq<char>, identifier: Seq<char>) -> Option<Seq<char>> {
    if namespace == IMDB_REFERENCE_NAMESPACE@ && imdb_resource_of(identifier) == Some(resource) {
        Some("imdb"@)
    } else if namespace == TMDB_REFERENCE_NAMESPACE@ && (resource == "movie"@ || resource == "tv"@
        || resource == "tv-season"@ || resource == "tv-episode"@ || resource == "person"@) {
        Some("tmdb"@)
    } else if namespace == TVDB_REFERENCE_NAMESPACE@ && (resource == "movies"@ || resource
        == "series"@ || resource == "seasons"@ || resource == "episodes"@ || resource
        == "people"@) {
        Some("tvdb"@)
    } else if namespace == MUSICBRAINZ_REFERENCE_NAMESPACE@ && (resource == "artist"@ || resource
        == "release-group"@ || resource == "recording"@) {
        Some("mbid"@)
    } else {
        None
    }
}

/// The Plex GUID that a portable reference stands for.
pub open spec fn plex_guid_of(reference: PortableReferenceView) -> Option<Seq<char>> {
    if !valid_utf8(reference.value) {
        None
    } else {
        let value = decode_utf8(reference.value);
        if value.len() == 0 {
            None
        } else if reference.namespace == PLEX_REFERENCE_NAMESPACE@ {
            Some("plex://"@ + value)
        } else {
            match split_once(value, "/"@) {
                None => None,
                Some((resource, identifier)) => {
                    if identifier.len() == 0 {
                        None
                    } else {
                        match guid_scheme_of(reference.namespace, resource, identifier) {
                            Some(scheme) => Some(scheme + "://"@ + identifier),
                            None => None,
                        }
                    }
                },
            }
        }
    }
}

fn reference(namespace: &str, text: &str) -> (r: PortableReference)
    ensures
        r@ == reference_view(namespace@, text@),
{
    PortableReference { namespace: owned(namespace), value: utf8_bytes(text) }
}

/// Splits `s` around the first occurrence of `delimiter`, agreeing with
/// `split_once`.
fn split_text<'a>(s: &'a str, delimiter: &str) -> (r: Option<(&'a str, &'a str)>)
    ensures
        match split_once(s@, delimiter@) {
            None => r is None,
            Some(p) => r matches Some(q) && q.0@ == p.0 && q.1@ == p.1,
        },
{
    let r = text_split_once(s, delimiter);
    proof {
        match r {
            Some(q) => {
                lemma_split_once_at(s@, delimiter@, q.0@.len() as int);
            },
            None => {},
        }
    }
    r
}

fn imdb_resource(identifier: &str) -> (r: Option<&'static str>)
    ensures
        r.deep_view() == imdb_resource_of(identifier@),
{
    if text_strip_prefix(identifier, "tt").is_some() {
        Some("title")
    } else if text_strip_prefix(identifier, "nm").is_some() {
        Some("name")
    } else if text_strip_prefix(identifier, "co").is_some() {
        Some("company")
    } else {
        None
    }
}

fn tmdb_resource(media_type: &str) -> (r: Option<&'static str>)
    ensures
        r.deep_view() == tmdb_resource_of(media_type@),
{
    if same_text(media_type, "movie") {
        Some("movie")
    } else if same_text(media_type, "show") {
        Some("tv")
    } else if same_text(media_type, "season") {
        Some("tv-season")
    } else if same_text(media_type, "episode") {
        Some("tv-episode")
    } else if same_text(media_type, "person") {
        Some("person")
    } else {
        None
    }
}

fn tvdb_resource(media_type: &str) -> (r: Option<&'static str>)
    ensures
        r.deep_view() == tvdb_resource_of(media_type@),
{
    if same_text(media_type, "movie") {
        Some("movies")
    } else if same_text(media_type, "show") {
        Some("series")
    } else if same_text(media_type, "season") {
        Some("seasons")
    } else if same_text(media_type, "episode") {
        Some("episodes")
    } else if same_text(media_type, "person") {
        Some("people")
    } else {
        None
    }
}

fn musicbrainz_resource(media_type: &str) -> (r: Option<&'static str>)
    ensures
        r.deep_view() == musicbrainz_resource_of(media_type@),
{
    if same_text(media_type, "artist") {
        Some("artist")
    } else if same_text(media_type, "album") {
        Some("release-group")
    } else if same_text(media_type, "track") {
        Some("recording")
    } else {
        None
    }
}

fn reverse_dns_guid_scheme(scheme: &str) -> (r: bool)
    ensures
        r == is_reverse_dns_scheme(scheme@),
{
    let chars = text_chars(scheme);
    let n = chars.len();
    let mut seen_dot = false;
    let mut i: usize = 0;
    while i < n
        invariant
            n == chars@.len(),
            chars@ == scheme@,
            i <= n,
            seen_dot == exists|j: int| 0 <= j < i && chars@[j] == '.',
            forall|j: int| 0 <= j < i ==> dns_label_char(#[trigger] chars@[j]) || chars@[j] == '.',
            forall|j: int|
                0 <= j < i && #[trigger] chars@[j] == '.' ==> {
                    &&& 0 < j && j + 1 < n
                    &&& chars@[j - 1] != '.' && chars@[j - 1] != '-'
                    &&& chars@[j + 1] != '.' && chars@[j + 1] != '-'
                },
        decreases n - i,
    {
        let c = chars[i];
        if c == '.' {
            if i == 0 || i + 1 == n {
                return false;
            }
            let before = chars[i - 1];
            let after = chars[i + 1];
            if before == '.' || before == '-' || after == '.' || after == '-' {
                return false;
            }
            seen_dot = true;
        } else if !(('a' <= c && c <= 'z') || ('0' <= c && c <= '9') || c == '-') {
            return false;
        }
        i = i + 1;
    }
    if !seen_dot {
        return false;
    }
    chars[0] != '-' && chars[n - 1] != '-'
}

/// The portable reference that a Plex GUID stands for, for an item of the
/// given media type.
pub fn portable_reference(guid: &str, media_type: &str) -> (r: Option<PortableReference>)
    ensures
        r.deep_view() == portable_reference_of(guid@, media_type@),
{
    match parse_reference(guid, media_type) {
        Some(reference) => if reference.value.len() <= MAX_REFERENCE_VALUE_BYTES {
            Some(reference)
        } else {
            None
        },
        None => None,
    }
}

fn parse_reference(guid: &str, media_type: &str) -> (r: Option<PortableReference>)
    ensures
        r.deep_view() == parsed_reference_of(guid@, media_type@),
{
    let (raw_scheme, identifier) = match split_text(guid, "://") {
        Some(parts) => parts,
        None => return None,
    };
    if identifier.is_empty() {
        return None;
    }
    let scheme = text_to_ascii_lowercase(raw_scheme);
    if same_text(scheme.as_str(), "plex") {
        Some(reference(PLEX_REFERENCE_NAMESPACE, identifier))
    } else if same_text(scheme.as_str(), "imdb") {
        match imdb_resource(identifier) {
            Some(resource) => Some(
                reference(IMDB_REFERENCE_NAMESPACE, join3(resource, "/", identifier).as_str()),
            ),
            None => None,
        }
    } else if same_text(scheme.as_str(), "tmdb") {
        match tmdb_resource(media_type) {
            Some(resource) => Some(
                reference(TMDB_REFERENCE_NAMESPACE, join3(resource, "/", identifier).as_str()),
            ),
            None => None,
        }
    } else if same_text(scheme.as_str(), "tvdb") {
        match tvdb_resource(media_type) {
            Some(resource) => Some(
                reference(TVDB_REFERENCE_NAMESPACE, join3(resource, "/", identifier).as_str()),
            ),
            None => None,
        }
    } else if same_text(scheme.as_str(), "mbid") {
        match musicbrainz_resource(media_type) {
            Some(resource) => Some(
                reference(
                    MUSICBRAINZ_REFERENCE_NAMESPACE,
                    join3(resource, "/", identifier).as_str(),
                ),
            ),
            None => None,
        }
    } else if reverse_dns_guid_scheme(scheme.as_str()) {
        Some(PortableReference { namespace: scheme, value: utf8_bytes(identifier) })
    } else {
        None
    }
}

fn one_of(value: &str, first: &str, second: &str, third: &str) -> (r: bool)
    ensures
        r == (value@ == first@ || value@ == second@ || value@ == third@),
{
    same_text(value, first) || same_text(value, second) || same_text(value, third)
}

/// The Plex GUID that a portable reference stands for.
pub fn plex_guid(reference: &PortableReference) -> (r: Option<String>)
    ensures
        r.deep_view() == plex_guid_of(reference@),
{
    let value = match text_from_utf8(reference.value.as_slice()) {
        Some(value) => value,
        None => return None,
    };
    if value.is_empty() {
        return None;
    }
    let namespace = reference.namespace.as_str();
    if same_text(namespace, PLEX_REFERENCE_NAMESPACE) {
        return Some(join2("plex://", value));
    }
    let (resource, identifier) = match split_text(value, "/") {
        Some(parts) => parts,
        None => return None,
    };
    if identifier.is_empty() {
        return None;
    }
    let imdb_matches = match imdb_resource(identifier) {
        Some(expected) => same_text(expected, resource),
        None => false,
    };
    let scheme = if same_text(namespace, IMDB_REFERENCE_NAMESPACE) && imdb_matches {
        "imdb"
    } else if same_text(namespace, TMDB_REFERENCE_NAMESPACE) && (one_of(
        resource,
        "movie",
        "tv",
        "tv-season",
    ) || one_of(resource, "tv-episode", "person", "person")) {
        "tmdb"
    } else if same_text(namespace, TVDB_REFERENCE_NAMESPACE) && (one_of(
        resource,
        "movies",
        "series",
        "seasons",
    ) || one_of(resource, "episodes", "people", "people")) {
        "tvdb"
    } else if same_text(namespace, MUSICBRAINZ_REFERENCE_NAMESPACE) && one_of(
        resource,
        "artist",
        "release-group",
        "recording",
    ) {
        "mbid"
    } else {
        return None;
    };
    Some(join3(scheme, "://", identifier))
}

/// Law: for a GUID of one of the known database schemes that maps to a
/// portable reference, the reference maps back to the same GUID.
pub proof fn lemma_plex_guid_inverts_portable_reference(
    scheme: Seq<char>,
    identifier: Seq<char>,
    media_type: Seq<char>,
)
    requires
        scheme == "plex"@ || scheme == "imdb"@ || scheme == "tmdb"@ || scheme == "tvdb"@
            || scheme == "mbid"@,
        portable_reference_of(scheme + "://"@ + identifier, media_type) is Some,
    ensures
        plex_guid_of(portable_reference_of(scheme + "://"@ + identifier, media_type).unwrap())
            == Some(scheme + "://"@ + identifier),
{
    reveal_strlit("plex");
    reveal_strlit("imdb");
    reveal_strlit("tmdb");
    reveal_strlit("tvdb");
    reveal_strlit("mbid");
    reveal_strlit("://");
    reveal_strlit("/");
    let guid = scheme + "://"@ + identifier;
    assert forall|k: int| 0 <= k < scheme.len() implies scheme[k] != "://"@[0] by {}
    lemma_split_after_free_prefix(scheme, "://"@, identifier);
    assert(ascii_lowercase(scheme) =~= scheme);
    let r = portable_reference_of(guid, media_type).unwrap();
    assert(identifier.len() > 0);
    reveal_strlit("tv.plex");
    reveal_strlit("com.imdb");
    reveal_strlit("org.themoviedb");
    reveal_strlit("com.thetvdb");
    reveal_strlit("org.musicbrainz");
    reveal_strlit("plex://");
    if scheme == "plex"@ {
        assert(decode_utf8(r.value) == identifier);
        assert("plex://"@ =~= "plex"@ + "://"@);
        assert(plex_guid_of(r) == Some("plex://"@ + identifier));
    } else {
        let resource = if scheme == "imdb"@ {
            imdb_resource_of(identifier).unwrap()
        } else if scheme == "tmdb"@ {
            tmdb_resource_of(media_type).unwrap()
        } else if scheme == "tvdb"@ {
            tvdb_resource_of(media_type).unwrap()
        } else {
            musicbrainz_resource_of(media_type).unwrap()
        };
        reveal_strlit("title");
        reveal_strlit("name");
        reveal_strlit("company");
        reveal_strlit("movie");
        reveal_strlit("tv");
        reveal_strlit("tv-season");
        reveal_strlit("tv-episode");
        reveal_strlit("person");
        reveal_strlit("movies");
        reveal_strlit("series");
        reveal_strlit("seasons");
        reveal_strlit("episodes");
        reveal_strlit("people");
        reveal_strlit("artist");
        reveal_strlit("release-group");
        reveal_strlit("recording");
        let value = resource + "/"@ + identifier;
        assert(decode_utf8(r.value) == value);
        assert forall|k: int| 0 <= k < resource.len() implies resource[k] != "/"@[0] by {}
        lemma_split_after_free_prefix(resource, "/"@, identifier);
        assert(value.len() > 0);
        assert(PLEX_REFERENCE_NAMESPACE@ == "tv.plex"@);
        assert(IMDB_REFERENCE_NAMESPACE@ == "com.imdb"@);
        assert(TMDB_REFERENCE_NAMESPACE@ == "org.themoviedb"@);
        assert(TVDB_REFERENCE_NAMESPACE@ == "com.thetvdb"@);
        assert(MUSICBRAINZ_REFERENCE_NAMESPACE@ == "org.musicbrainz"@);
        if scheme == "imdb"@ {
            assert(r.namespace == IMDB_REFERENCE_NAMESPACE@);
            assert("com.imdb"@ != "tv.plex"@) by { assert("com.imdb"@.len() != "tv.plex"@.len()); }
        } else if scheme == "tmdb"@ {
            assert(r.namespace == TMDB_REFERENCE_NAMESPACE@);
            assert("org.themoviedb"@ != "tv.plex"@) by { assert("org.themoviedb"@.len() != "tv.plex"@.len()); }
            assert("org.themoviedb"@ != "com.imdb"@) by { assert("org.themoviedb"@.len() != "com.imdb"@.len()); }
        } else if scheme == "tvdb"@ {
            assert(r.namespace == TVDB_REFERENCE_NAMESPACE@);
            assert("com.thetvdb"@ != "tv.plex"@) by { assert("com.thetvdb"@.len() != "tv.plex"@.len()); }
            assert("com.thetvdb"@ != "com.imdb"@) by { assert("com.thetvdb"@.len() != "com.imdb"@.len()); }
            assert("com.thetvdb"@ != "org.themoviedb"@) by { assert("com.thetvdb"@.len() != "org.themoviedb"@.len()); }
        } else {
            assert(r.namespace == MUSICBRAINZ_REFERENCE_NAMESPACE@);
            assert("org.musicbrainz"@ != "tv.plex"@) by { assert("org.musicbrainz"@.len() != "tv.plex"@.len()); }
            assert("org.musicbrainz"@ != "com.imdb"@) by { assert("org.musicbrainz"@.len() != "com.imdb"@.len()); }
            assert("org.musicbrainz"@ != "org.themoviedb"@) by { assert("org.musicbrainz"@.len() != "org.themoviedb"@.len()); }
            assert("org.musicbrainz"@ != "com.thetvdb"@) by { assert("org.musicbrainz"@.len() != "com.thetvdb"@.len()); }
        }
        assert(r.namespace != PLEX_REFERENCE_NAMESPACE@);
        assert(split_once(value, "/"@) == Some((resource, identifier)));
        assert(guid_scheme_of(r.namespace, resource, identifier) == Some(scheme));
    }
}

/// A GUID of one of the four databases is `scheme://identifier`, and its
/// reference is `resource/identifier` under the database's namespace, where
/// the resource follows the identifier's prefix for IMDb and the item's media
/// type for the others.
proof fn lemma_database_guid_parse(scheme: Seq<char>, identifier: Seq<char>, media_type: Seq<char>)
    requires
        scheme == "imdb"@ || scheme == "tmdb"@ || scheme == "tvdb"@ || scheme == "mbid"@,
        identifier.len() > 0,
    ensures
        parsed_reference_of(scheme + "://"@ + identifier, media_type) == (if scheme == "imdb"@ {
            resource_reference("com.imdb"@, imdb_resource_of(identifier), identifier)
        } else if scheme == "tmdb"@ {
            resource_reference("org.themoviedb"@, tmdb_resource_of(media_type), identifier)
        } else if scheme == "tvdb"@ {
            resource_reference("com.thetvdb"@, tvdb_resource_of(media_type), identifier)
        } else {
            resource_reference("org.musicbrainz"@, musicbrainz_resource_of(media_type), identifier)
        }),
{
    reveal_strlit("://");
    reveal_strlit("plex");
    reveal_strlit("imdb");
    reveal_strlit("tmdb");
    reveal_strlit("tvdb");
    reveal_strlit("mbid");
    reveal_strlit("com.imdb");
    reveal_strlit("org.themoviedb");
    reveal_strlit("com.thetvdb");
    reveal_strlit("org.musicbrainz");
    assert forall|k: int| 0 <= k < scheme.len() implies scheme[k] != "://"@[0] by {}
    lemma_split_after_free_prefix(scheme, "://"@, identifier);
    assert(ascii_lowercase(scheme) =~= scheme);
    assert("plex"@[0] != "imdb"@[0] && "plex"@[0] != "tmdb"@[0] && "plex"@[0] != "mbid"@[0]);
    assert("plex"@[1] != "tvdb"@[1]);
    assert("imdb"@[0] != "tmdb"@[0] && "imdb"@[0] != "tvdb"@[0] && "imdb"@[0] != "mbid"@[0]);
    assert("tmdb"@[1] != "tvdb"@[1] && "tmdb"@[0] != "mbid"@[0] && "tvdb"@[0] != "mbid"@[0]);
    assert(IMDB_REFERENCE_NAMESPACE@ == "com.imdb"@);
    assert(TMDB_REFERENCE_NAMESPACE@ == "org.themoviedb"@);
    assert(TVDB_REFERENCE_NAMESPACE@ == "com.thetvdb"@);
    assert(MUSICBRAINZ_REFERENCE_NAMESPACE@ == "org.musicbrainz"@);
}

/// A `tmdb://` GUID names a TMDB resource chosen by the item's media type: a
/// movie, a show (`tv`), a season (`tv-season`), an episode (`tv-episode`) or
/// a person; so one identifier gives different references for a show and for
/// a season of it. The reference is kept while its value fits the limit.
pub proof fn lemma_tmdb_reference_follows_media_type(identifier: Seq<char>)
    requires
        identifier.len() > 0,
    ensures
        parsed_reference_of("tmdb://"@ + identifier, "movie"@) == Some(
            reference_view("org.themoviedb"@, "movie/"@ + identifier),
        ),
        parsed_reference_of("tmdb://"@ + identifier, "show"@) == Some(
            reference_view("org.themoviedb"@, "tv/"@ + identifier),
        ),
        parsed_reference_of("tmdb://"@ + identifier, "season"@) == Some(
            reference_view("org.themoviedb"@, "tv-season/"@ + identifier),
        ),
        parsed_reference_of("tmdb://"@ + identifier, "episode"@) == Some(
            reference_view("org.themoviedb"@, "tv-episode/"@ + identifier),
        ),
        parsed_reference_of("tmdb://"@ + identifier, "person"@) == Some(
            reference_view("org.themoviedb"@, "person/"@ + identifier),
        ),
        parsed_reference_of("tmdb://"@ + identifier, "show"@) != parsed_reference_of(
            "tmdb://"@ + identifier,
            "season"@,
        ),
        encode_utf8("tv-season/"@ + identifier).len() <= MAX_REFERENCE_VALUE_BYTES ==> portable_reference_of(
            "tmdb://"@ + identifier,
            "season"@,
        ) == Some(reference_view("org.themoviedb"@, "tv-season/"@ + identifier)),
{
    reveal_strlit("movie");
    reveal_strlit("show");
    reveal_strlit("season");
    reveal_strlit("episode");
    reveal_strlit("person");
    reveal_strlit("tv");
    reveal_strlit("tv-season");
    reveal_strlit("tv-episode");
    reveal_strlit("/");
    reveal_strlit("movie/");
    reveal_strlit("tv/");
    reveal_strlit("tv-season/");
    reveal_strlit("tv-episode/");
    reveal_strlit("person/");
    reveal_strlit("tmdb://");
    reveal_strlit("tmdb");
    reveal_strlit("://");
    reveal_strlit("imdb");
    assert("tmdb://"@ + identifier =~= "tmdb"@ + "://"@ + identifier);
    assert("tmdb"@[0] != "imdb"@[0]);
    lemma_database_guid_parse("tmdb"@, identifier, "movie"@);
    lemma_database_guid_parse("tmdb"@, identifier, "show"@);
    lemma_database_guid_parse("tmdb"@, identifier, "season"@);
    lemma_database_guid_parse("tmdb"@, identifier, "episode"@);
    lemma_database_guid_parse("tmdb"@, identifier, "person"@);
    assert("show"@ != "movie"@) by { assert("show"@.len() != "movie"@.len()); }
    assert("season"@ != "movie"@) by { assert("season"@.len() != "movie"@.len()); }
    assert("season"@ != "show"@) by { assert("season"@.len() != "show"@.len()); }
    assert("episode"@ != "movie"@) by { assert("episode"@.len() != "movie"@.len()); }
    assert("episode"@ != "show"@) by { assert("episode"@.len() != "show"@.len()); }
    assert("episode"@ != "season"@) by { assert("episode"@.len() != "season"@.len()); }
    assert("person"@ != "movie"@) by { assert("person"@.len() != "movie"@.len()); }
    assert("person"@ != "show"@) by { assert("person"@.len() != "show"@.len()); }
    assert("person"@ != "season"@) by { assert("person"@[0] != "season"@[0]); }
    assert("person"@ != "episode"@) by { assert("person"@.len() != "episode"@.len()); }
    assert("movie/"@ + identifier =~= "movie"@ + "/"@ + identifier);
    assert("tv/"@ + identifier =~= "tv"@ + "/"@ + identifier);
    assert("tv-season/"@ + identifier =~= "tv-season"@ + "/"@ + identifier);
    assert("tv-episode/"@ + identifier =~= "tv-episode"@ + "/"@ + identifier);
    assert("person/"@ + identifier =~= "person"@ + "/"@ + identifier);
    let show = "tv/"@ + identifier;
    let season = "tv-season/"@ + identifier;
    assert(show != season) by {
        assert(show[2] != season[2]);
    }
    assert(encode_utf8(show) != encode_utf8(season)) by {
        encode_utf8_decode_utf8(show);
        encode_utf8_decode_utf8(season);
    }
}

/// A `tvdb://` GUID names a TheTVDB resource chosen by the item's media type:
/// `movies`, `series` for a show, `seasons`, `episodes` or `people`; an item
/// of another type gets no reference from it.
pub proof fn lemma_tvdb_reference_follows_media_type(identifier: Seq<char>)
    requires
        identifier.len() > 0,
    ensures
        parsed_reference_of("tvdb://"@ + identifier, "movie"@) == Some(
            reference_view("com.thetvdb"@, "movies/"@ + identifier),
        ),
        parsed_reference_of("tvdb://"@ + identifier, "show"@) == Some(
            reference_view("com.thetvdb"@, "series/"@ + identifier),
        ),
        parsed_reference_of("tvdb://"@ + identifier, "season"@) == Some(
            reference_view("com.thetvdb"@, "seasons/"@ + identifier),
        ),
        parsed_reference_of("tvdb://"@ + identifier, "episode"@) == Some(
            reference_view("com.thetvdb"@, "episodes/"@ + identifier),
        ),
        parsed_reference_of("tvdb://"@ + identifier, "person"@) == Some(
            reference_view("com.thetvdb"@, "people/"@ + identifier),
        ),
        parsed_reference_of("tvdb://"@ + identifier, "album"@) == None::<PortableReferenceView>,
{
    reveal_strlit("tvdb://");
    reveal_strlit("tvdb");
    reveal_strlit("tmdb");
    reveal_strlit("imdb");
    reveal_strlit("://");
    reveal_strlit("movie");
    reveal_strlit("show");
    reveal_strlit("season");
    reveal_strlit("episode");
    reveal_strlit("person");
    reveal_strlit("album");
    reveal_strlit("/");
    reveal_strlit("movies");
    reveal_strlit("series");
    reveal_strlit("seasons");
    reveal_strlit("episodes");
    reveal_strlit("people");
    reveal_strlit("movies/");
    reveal_strlit("series/");
    reveal_strlit("seasons/");
    reveal_strlit("episodes/");
    reveal_strlit("people/");
    assert("tvdb://"@ + identifier =~= "tvdb"@ + "://"@ + identifier);
    assert("tvdb"@[0] != "imdb"@[0] && "tvdb"@[1] != "tmdb"@[1]);
    lemma_database_guid_parse("tvdb"@, identifier, "movie"@);
    lemma_database_guid_parse("tvdb"@, identifier, "show"@);
    lemma_database_guid_parse("tvdb"@, identifier, "season"@);
    lemma_database_guid_parse("tvdb"@, identifier, "episode"@);
    lemma_database_guid_parse("tvdb"@, identifier, "person"@);
    lemma_database_guid_parse("tvdb"@, identifier, "album"@);
    assert("show"@ != "movie"@) by { assert("show"@.len() != "movie"@.len()); }
    assert("season"@ != "movie"@) by { assert("season"@.len() != "movie"@.len()); }
    assert("season"@ != "show"@) by { assert("season"@.len() != "show"@.len()); }
    assert("episode"@ != "movie"@) by { assert("episode"@.len() != "movie"@.len()); }
    assert("episode"@ != "show"@) by { assert("episode"@.len() != "show"@.len()); }
    assert("episode"@ != "season"@) by { assert("episode"@.len() != "season"@.len()); }
    assert("person"@ != "movie"@) by { assert("person"@.len() != "movie"@.len()); }
    assert("person"@ != "show"@) by { assert("person"@.len() != "show"@.len()); }
    assert("person"@ != "season"@) by { assert("person"@[0] != "season"@[0]); }
    assert("person"@ != "episode"@) by { assert("person"@.len() != "episode"@.len()); }
    assert("album"@ != "movie"@ && "album"@ != "show"@ && "album"@ != "season"@ && "album"@ != "episode"@
        && "album"@ != "person"@) by {
        assert("album"@[0] != "movie"@[0] && "album"@[0] != "show"@[0] && "album"@[0] != "season"@[0]
            && "album"@[0] != "episode"@[0] && "album"@[0] != "person"@[0]);
    }
    assert("movies/"@ + identifier =~= "movies"@ + "/"@ + identifier);
    assert("series/"@ + identifier =~= "series"@ + "/"@ + identifier);
    assert("seasons/"@ + identifier =~= "seasons"@ + "/"@ + identifier);
    assert("episodes/"@ + identifier =~= "episodes"@ + "/"@ + identifier);
    assert("people/"@ + identifier =~= "people"@ + "/"@ + identifier);
}

/// An `mbid://` GUID names a MusicBrainz resource chosen by the item's media
/// type: `artist`, `release-group` for an album, `recording` for a track; an
/// item of another type gets no reference from it.
pub proof fn lemma_musicbrainz_reference_follows_media_type(identifier: Seq<char>)
    requires
        identifier.len() > 0,
    ensures
        parsed_reference_of("mbid://"@ + identifier, "artist"@) == Some(
            reference_view("org.musicbrainz"@, "artist/"@ + identifier),
        ),
        parsed_reference_of("mbid://"@ + identifier, "album"@) == Some(
            reference_view("org.musicbrainz"@, "release-group/"@ + identifier),
        ),
        parsed_reference_of("mbid://"@ + identifier, "track"@) == Some(
            reference_view("org.musicbrainz"@, "recording/"@ + identifier),
        ),
        parsed_reference_of("mbid://"@ + identifier, "movie"@) == None::<PortableReferenceView>,
{
    reveal_strlit("mbid://");
    reveal_strlit("mbid");
    reveal_strlit("tvdb");
    reveal_strlit("tmdb");
    reveal_strlit("imdb");
    reveal_strlit("://");
    reveal_strlit("artist");
    reveal_strlit("album");
    reveal_strlit("track");
    reveal_strlit("movie");
    reveal_strlit("/");
    reveal_strlit("release-group");
    reveal_strlit("recording");
    reveal_strlit("artist/");
    reveal_strlit("release-group/");
    reveal_strlit("recording/");
    assert("mbid://"@ + identifier =~= "mbid"@ + "://"@ + identifier);
    assert("mbid"@[0] != "imdb"@[0] && "mbid"@[0] != "tmdb"@[0] && "mbid"@[0] != "tvdb"@[0]);
    lemma_database_guid_parse("mbid"@, identifier, "artist"@);
    lemma_database_guid_parse("mbid"@, identifier, "album"@);
    lemma_database_guid_parse("mbid"@, identifier, "track"@);
    lemma_database_guid_parse("mbid"@, identifier, "movie"@);
    assert("album"@ != "artist"@) by { assert("album"@.len() != "artist"@.len()); }
    assert("track"@ != "artist"@) by { assert("track"@.len() != "artist"@.len()); }
    assert("track"@ != "album"@) by { assert("track"@[0] != "album"@[0]); }
    assert("movie"@ != "artist"@ && "movie"@ != "album"@ && "movie"@ != "track"@) by {
        assert("movie"@[0] != "artist"@[0] && "movie"@[0] != "album"@[0] && "movie"@[0] != "track"@[0]);
    }
    assert("artist/"@ + identifier =~= "artist"@ + "/"@ + identifier);
    assert("release-group/"@ + identifier =~= "release-group"@ + "/"@ + identifier);
    assert("recording/"@ + identifier =~= "recording"@ + "/"@ + identifier);
}

/// An `imdb://` GUID names an IMDb resource chosen by the identifier's first
/// two letters, whatever the item's media type: `tt` a title, `nm` a name and
/// `co` a company; any other identifier gets no reference.
pub proof fn lemma_imdb_reference_follows_prefix(identifier: Seq<char>, media_type: Seq<char>)
    requires
        identifier.len() >= 2,
    ensures
        identifier[0] == 't' && identifier[1] == 't' ==> parsed_reference_of("imdb://"@ + identifier, media_type)
            == Some(reference_view("com.imdb"@, "title/"@ + identifier)),
        identifier[0] == 'n' && identifier[1] == 'm' ==> parsed_reference_of("imdb://"@ + identifier, media_type)
            == Some(reference_view("com.imdb"@, "name/"@ + identifier)),
        identifier[0] == 'c' && identifier[1] == 'o' ==> parsed_reference_of("imdb://"@ + identifier, media_type)
            == Some(reference_view("com.imdb"@, "company/"@ + identifier)),
        !(identifier[0] == 't' && identifier[1] == 't') && !(identifier[0] == 'n' && identifier[1] == 'm') && !(
        identifier[0] == 'c' && identifier[1] == 'o') ==> parsed_reference_of("imdb://"@ + identifier, media_type)
            == None::<PortableReferenceView>,
{
    reveal_strlit("imdb://");
    reveal_strlit("imdb");
    reveal_strlit("://");
    reveal_strlit("tt");
    reveal_strlit("nm");
    reveal_strlit("co");
    reveal_strlit("/");
    reveal_strlit("title");
    reveal_strlit("name");
    reveal_strlit("company");
    reveal_strlit("title/");
    reveal_strlit("name/");
    reveal_strlit("company/");
    assert("imdb://"@ + identifier =~= "imdb"@ + "://"@ + identifier);
    lemma_database_guid_parse("imdb"@, identifier, media_type);
    let head = identifier.take(2);
    assert(head[0] == identifier[0] && head[1] == identifier[1]);
    assert(has_prefix(identifier, "tt"@) <==> head =~= "tt"@);
    assert(has_prefix(identifier, "nm"@) <==> head =~= "nm"@);
    assert(has_prefix(identifier, "co"@) <==> head =~= "co"@);
    assert("title/"@ + identifier =~= "title"@ + "/"@ + identifier);
    assert("name/"@ + identifier =~= "name"@ + "/"@ + identifier);
    assert("company/"@ + identifier =~= "company"@ + "/"@ + identifier);
}

// ---------------------------------------------------------------------------
// Provider items and relations
// ---------------------------------------------------------------------------

pub open spec fn text_value_view(text: Seq<char>) -> ValueView {
    ValueView { value: Some(ValueKindView::Text(text)) }
}

pub open spec fn boolean_value_view(boolean: bool) -> ValueView {
    ValueView { value: Some(ValueKindView::Boolean(boolean)) }
}

pub open spec fn integer_value_view(integer: i64) -> ValueView {
    ValueView { value: Some(ValueKindView::Integer(integer)) }
}

pub open spec fn decimal_value_view(decimal: Seq<char>) -> ValueView {
    ValueView { value: Some(ValueKindView::Decimal(crate::sdk::DecimalValueView { value: decimal })) }
}

/// The media attribute with this name and value.
pub open spec fn media_attribute(name: Seq<char>, value: ValueView) -> AttributeView {
    AttributeView { term: Some(term_view(MEDIA_NAMESPACE@, name)), value: Some(value) }
}

/// The text present and not empty.
pub open spec fn non_empty_text(text: Option<Seq<char>>) -> bool {
    text matches Some(t) && t.len() > 0
}

/// A text attribute, present when the text is present and not empty.
pub open spec fn text_attribute(name: Seq<char>, text: Option<Seq<char>>) -> Seq<AttributeView> {
    if non_empty_text(text) {
        seq![media_attribute(name, text_value_view(text.unwrap()))]
    } else {
        seq![]
    }
}

/// An integer attribute, present when the number is present.
pub open spec fn integer_attribute(name: Seq<char>, number: Option<i64>) -> Seq<AttributeView> {
    match number {
        Some(n) => seq![media_attribute(name, integer_value_view(n))],
        None => seq![],
    }
}

/// One genre attribute per non-empty genre tag, in order.
pub open spec fn genre_attributes(genres: Seq<TagView>) -> Seq<AttributeView>
    decreases genres.len(),
{
    if genres.len() == 0 {
        seq![]
    } else {
        genre_attributes(genres.drop_last()) + text_attribute("genre"@, Some(genres.last().tag))
    }
}

/// The attributes of a provider item made from a media item.
pub open spec fn item_attributes(item: MediaItemView) -> Seq<AttributeView> {
    text_attribute("summary"@, item.summary) + integer_attribute("duration"@, item.duration)
        + text_attribute("originally_available_at"@, item.originally_available_at)
        + integer_attribute("year"@, item.year) + integer_attribute("index"@, item.index)
        + integer_attribute("parent_index"@, item.parent_index) + genre_attributes(item.genres)
}

/// The reference to an artwork asset of this kind.
pub open spec fn asset_reference_view(kind: Seq<char>) -> BinaryAssetReferenceView {
    BinaryAssetReferenceView {
        key: Some(key_view("asset:"@ + kind)),
        kind: Some(term_view("dev.trakkin.asset"@, kind)),
    }
}

/// A poster when the item has a thumbnail, then a backdrop when it has art.
pub open spec fn item_assets(item: MediaItemView) -> Seq<BinaryAssetReferenceView> {
    (if non_empty_text(item.thumb) {
        seq![asset_reference_view("poster"@)]
    } else {
        seq![]
    }) + (if non_empty_text(item.art) {
        seq![asset_reference_view("backdrop"@)]
    } else {
        seq![]
    })
}

/// The display name: grandparent, parent and title when both ancestors'
/// titles are non-empty; else parent and title when the parent's is; else the
/// title alone.
pub open spec fn item_display_name(item: MediaItemView) -> Seq<char> {
    if non_empty_text(item.grandparent_title) && non_empty_text(item.parent_title) {
        item.grandparent_title.unwrap() + " - "@ + item.parent_title.unwrap() + " - "@ + item_title(item)
    } else if non_empty_text(item.parent_title) {
        item.parent_title.unwrap() + " - "@ + item_title(item)
    } else {
        item_title(item)
    }
}

/// Whether a character is white space: it has the Unicode `White_Space`
/// property, as `char::is_whitespace` documents.
pub open spec fn white_space(c: char) -> bool {
    let n = c as int;
    (0x9 <= n && n <= 0xd) || n == 0x20 || n == 0x85 || n == 0xa0 || n == 0x1680 || (0x2000 <= n && n <= 0x200a)
        || n == 0x2028 || n == 0x2029 || n == 0x202f || n == 0x205f || n == 0x3000
}

/// Whether a text holds nothing but white space.
pub open spec fn blank_text(s: Seq<char>) -> bool {
    forall|i: int| 0 <= i < s.len() ==> white_space(#[trigger] s[i])
}

/// The title that an item shows: its own, or a name made of its rating key
/// when its own is blank.
pub open spec fn item_title(item: MediaItemView) -> Seq<char> {
    if blank_text(item.title) {
        "Untitled Plex item "@ + item.rating_key
    } else {
        item.title
    }
}

/// `s` with `r` added at its end unless `s` already holds it.
pub open spec fn push_unique(s: Seq<PortableReferenceView>, r: PortableReferenceView) -> Seq<PortableReferenceView> {
    if s.contains(r) {
        s
    } else {
        s.push(r)
    }
}

/// The first occurrence of each reference of `s`, in order.
pub open spec fn unique_references(s: Seq<PortableReferenceView>) -> Seq<PortableReferenceView>
    decreases s.len(),
{
    if s.len() == 0 {
        seq![]
    } else {
        push_unique(unique_references(s.drop_last()), s.last())
    }
}

/// The reference of the primary GUID, when it maps to one.
pub open spec fn primary_reference(guid: Option<Seq<char>>, media_type: Seq<char>) -> Seq<PortableReferenceView> {
    match guid {
        Some(g) => match portable_reference_of(g, media_type) {
            Some(r) => seq![r],
            None => seq![],
        },
        None => seq![],
    }
}

/// The references of the GUIDs that map to one, in order.
pub open spec fn guid_references(guids: Seq<PlexGuidView>, media_type: Seq<char>) -> Seq<PortableReferenceView>
    decreases guids.len(),
{
    if guids.len() == 0 {
        seq![]
    } else {
        let rest = guid_references(guids.drop_last(), media_type);
        match portable_reference_of(guids.last().id, media_type) {
            Some(r) => rest.push(r),
            None => rest,
        }
    }
}

/// The portable reference candidates of a media item: its primary GUID's
/// reference, then those of its other GUIDs, each reference once.
pub open spec fn reference_candidates(item: MediaItemView) -> Seq<PortableReferenceView> {
    unique_references(
        primary_reference(item.guid, item.media_type) + guid_references(item.guids, item.media_type),
    )
}

/// Whether the policy recommends a reference as a mapping root.
pub open spec fn policy_recommends(policy: RecommendationPolicy, reference: PortableReferenceView) -> bool {
    match policy {
        RecommendationPolicy::Disabled => false,
        RecommendationPolicy::Movie => reference.namespace == IMDB_REFERENCE_NAMESPACE@
            || reference.namespace == TMDB_REFERENCE_NAMESPACE@ || reference.namespace
            == TVDB_REFERENCE_NAMESPACE@,
        RecommendationPolicy::SeriesTmdb => reference.namespace == TMDB_REFERENCE_NAMESPACE@,
        RecommendationPolicy::SeriesTvdb => reference.namespace == TVDB_REFERENCE_NAMESPACE@,
    }
}

/// The references of `s` that the policy recommends, in order.
pub open spec fn recommended_references(policy: RecommendationPolicy, s: Seq<PortableReferenceView>) -> Seq<PortableReferenceView>
    decreases s.len(),
{
    if s.len() == 0 {
        seq![]
    } else {
        let rest = recommended_references(policy, s.drop_last());
        if policy_recommends(policy, s.last()) {
            rest.push(s.last())
        } else {
            rest
        }
    }
}

/// The provider item that a media item becomes.
pub open spec fn provider_item_of(item: MediaItemView, policy: RecommendationPolicy) -> ProviderItemView {
    ProviderItemView {
        key: Some(key_view("item:"@ + item.rating_key)),
        kind: Some(term_view(MEDIA_NAMESPACE@, item.media_type)),
        display_name: item_display_name(item),
        attributes: item_attributes(item),
        portable_reference_candidates: reference_candidates(item),
        assets: item_assets(item),
        recommended_mapping_roots: recommended_references(policy, reference_candidates(item)),
    }
}

/// The catalog relation that places a media item at a position of a page.
pub open spec fn catalog_relation_of(item: MediaItemView, position: usize) -> CatalogRelationView {
    CatalogRelationView {
        key: Some(key_view("relation:"@ + item.rating_key)),
        parent_key: match item.parent_rating_key {
            Some(parent) => Some(key_view("relation:"@ + parent)),
            None => None,
        },
        provider_item_key: Some(key_view("item:"@ + item.rating_key)),
        kind: Some(term_view("dev.trakkin.relation"@, "contains"@)),
        order: seq![
            match item.index {
                Some(index) => index,
                None => position as i64,
            },
        ],
        attributes: seq![],
    }
}

fn optional_text(value: &Option<String>) -> (r: Option<&str>)
    ensures
        r.deep_view() == value.deep_view(),
{
    match value {
        Some(text) => Some(text.as_str()),
        None => None,
    }
}

fn non_empty(value: Option<&str>) -> (r: bool)
    ensures
        r == non_empty_text(value.deep_view()),
{
    match value {
        Some(text) => !text.is_empty(),
        None => false,
    }
}

fn text_value(text: &str) -> (r: Value)
    ensures
        r@ == text_value_view(text@),
{
    Value { value: Some(ValueKind::Text(owned(text))) }
}

/// A boolean state value.
pub fn boolean_value(boolean: bool) -> (r: Value)
    ensures
        r@ == boolean_value_view(boolean),
{
    Value { value: Some(ValueKind::Boolean(boolean)) }
}

/// An integer state value.
pub fn integer_value(integer: i64) -> (r: Value)
    ensures
        r@ == integer_value_view(integer),
{
    Value { value: Some(ValueKind::Integer(integer)) }
}

/// A decimal state value holding the decimal text of a number.
pub fn decimal_value(decimal: &str) -> (r: Value)
    ensures
        r@ == decimal_value_view(decimal@),
{
    Value { value: Some(ValueKind::Decimal(DecimalValue { value: owned(decimal) })) }
}

fn push_text_attribute(attributes: &mut Vec<Attribute>, name: &str, text: Option<&str>)
    ensures
        final(attributes).deep_view() == old(attributes).deep_view() + text_attribute(
            name@,
            text.deep_view(),
        ),
{
    let ghost before = attributes.deep_view();
    if non_empty(text) {
        let text = text.unwrap();
        push_item(attributes, Attribute { term: Some(term(MEDIA_NAMESPACE, name)), value: Some(text_value(text)) });
    }
    assert(attributes.deep_view() =~= before + text_attribute(name@, text.deep_view()));
}

fn push_integer_attribute(attributes: &mut Vec<Attribute>, name: &str, number: Option<i64>)
    ensures
        final(attributes).deep_view() == old(attributes).deep_view() + integer_attribute(
            name@,
            number,
        ),
{
    let ghost before = attributes.deep_view();
    if let Some(number) = number {
        push_item(attributes, Attribute { term: Some(term(MEDIA_NAMESPACE, name)), value: Some(integer_value(number)) });
    }
    assert(attributes.deep_view() =~= before + integer_attribute(name@, number));
}

fn asset_reference(kind: &str) -> (r: BinaryAssetReference)
    ensures
        r@ == asset_reference_view(kind@),
{
    BinaryAssetReference {
        key: Some(key(join2("asset:", kind).as_str())),
        kind: Some(term("dev.trakkin.asset", kind)),
    }
}

fn display_name(item: &MediaItem) -> (r: String)
    ensures
        r@ == item_display_name(item@),
{
    let grandparent = optional_text(&item.grandparent_title);
    let parent = optional_text(&item.parent_title);
    let title = title_of(item);
    if non_empty(grandparent) && non_empty(parent) {
        let mut name = owned(grandparent.unwrap());
        name.append(" - ");
        name.append(parent.unwrap());
        name.append(" - ");
        name.append(title.as_str());
        name
    } else if non_empty(parent) {
        join3(parent.unwrap(), " - ", title.as_str())
    } else {
        title
    }
}

fn is_white_space(c: char) -> (r: bool)
    ensures
        r == white_space(c),
{
    let n = c as u32;
    (0x9 <= n && n <= 0xd) || n == 0x20 || n == 0x85 || n == 0xa0 || n == 0x1680 || (0x2000 <= n && n <= 0x200a)
        || n == 0x2028 || n == 0x2029 || n == 0x202f || n == 0x205f || n == 0x3000
}

/// Whether a text holds nothing but white space (`str::trim` leaves it
/// empty).
pub fn is_blank(s: &str) -> (r: bool)
    ensures
        r == blank_text(s@),
{
    let chars = text_chars(s);
    let mut i: usize = 0;
    while i < chars.len()
        invariant
            i <= chars.len(),
            chars@ == s@,
            forall|j: int| 0 <= j < i ==> white_space(#[trigger] s@[j]),
        decreases chars.len() - i,
    {
        if !is_white_space(chars[i]) {
            return false;
        }
        i = i + 1;
    }
    true
}

fn title_of(item: &MediaItem) -> (r: String)
    ensures
        r@ == item_title(item@),
{
    if is_blank(item.title.as_str()) {
        join2("Untitled Plex item ", item.rating_key.as_str())
    } else {
        item.title.clone()
    }
}

fn same_reference(a: &PortableReference, b: &PortableReference) -> (r: bool)
    ensures
        r == (a@ == b@),
{
    same_text(a.namespace.as_str(), b.namespace.as_str()) && same_bytes(&a.value, &b.value)
}

fn add_unique_reference(references: &mut Vec<PortableReference>, reference: PortableReference)
    ensures
        final(references).deep_view() == push_unique(old(references).deep_view(), reference@),
{
    let ghost before = references.deep_view();
    let mut i: usize = 0;
    while i < references.len()
        invariant
            i <= references.len(),
            references.deep_view() == before,
            forall|j: int| 0 <= j < i ==> before[j] != reference@,
        decreases references.len() - i,
    {
        if same_reference(&references[i], &reference) {
            assert(before[i as int] == reference@);
            return;
        }
        i = i + 1;
    }
    push_item(references, reference);
}

fn portable_references(item: &MediaItem, recommendation_policy: RecommendationPolicy) -> (r: (
    Vec<PortableReference>,
    Vec<PortableReference>,
))
    ensures
        r.0.deep_view() == reference_candidates(item@),
        r.1.deep_view() == recommended_references(recommendation_policy, reference_candidates(item@)),
{
    let mut candidates: Vec<PortableReference> = Vec::new();
    let ghost primary = primary_reference(item.guid.deep_view(), item.media_type@);
    match optional_text(&item.guid) {
        Some(guid) => match portable_reference(guid, item.media_type.as_str()) {
            Some(reference) => add_unique_reference(&mut candidates, reference),
            None => {},
        },
        None => {},
    }
    proof {
        if primary.len() == 1 {
            assert(primary.drop_last() =~= seq![]);
            assert(unique_references(seq![]) =~= seq![]);
        }
        assert(candidates.deep_view() =~= unique_references(primary));
        assert(item.guids.deep_view().take(0) =~= seq![]);
        assert(primary + guid_references(item.guids.deep_view().take(0), item.media_type@) =~= primary);
    }
    let mut i: usize = 0;
    while i < item.guids.len()
        invariant
            i <= item.guids.len(),
            primary == primary_reference(item.guid.deep_view(), item.media_type@),
            candidates.deep_view() == unique_references(
                primary + guid_references(item.guids.deep_view().take(i as int), item.media_type@),
            ),
        decreases item.guids.len() - i,
    {
        let ghost done = primary + guid_references(item.guids.deep_view().take(i as int), item.media_type@);
        let ghost guids = item.guids.deep_view().take(i as int + 1);
        assert(guids.drop_last() =~= item.guids.deep_view().take(i as int));
        assert(guids.last() == item.guids@[i as int]@);
        match portable_reference(item.guids[i].id.as_str(), item.media_type.as_str()) {
            Some(reference) => {
                add_unique_reference(&mut candidates, reference);
                assert((done.push(reference@)).drop_last() =~= done);
                assert(primary + guid_references(guids, item.media_type@) =~= done.push(reference@));
            },
            None => {
                assert(primary + guid_references(guids, item.media_type@) =~= done);
            },
        }
        i = i + 1;
    }
    assert(item.guids.deep_view().take(item.guids.len() as int) =~= item.guids.deep_view());
    let mut recommended: Vec<PortableReference> = Vec::new();
    let mut k: usize = 0;
    while k < candidates.len()
        invariant
            k <= candidates.len(),
            candidates.deep_view() == reference_candidates(item@),
            recommended.deep_view() == recommended_references(
                recommendation_policy,
                candidates.deep_view().take(k as int),
            ),
        decreases candidates.len() - k,
    {
        let ghost taken = candidates.deep_view().take(k as int + 1);
        assert(taken.drop_last() =~= candidates.deep_view().take(k as int));
        assert(taken.last() == candidates@[k as int]@);
        if recommendation_policy.recommends_reference(&candidates[k]) {
            push_item(&mut recommended, candidates[k].duplicate());
        }
        k = k + 1;
    }
    assert(candidates.deep_view().take(candidates.len() as int) =~= candidates.deep_view());
    (candidates, recommended)
}

impl RecommendationPolicy {
    fn recommends_reference(self, reference: &PortableReference) -> (r: bool)
        ensures
            r == policy_recommends(self, reference@),
    {
        let namespace = reference.namespace.as_str();
        match self {
            RecommendationPolicy::Disabled => false,
            RecommendationPolicy::Movie => same_text(namespace, IMDB_REFERENCE_NAMESPACE)
                || same_text(namespace, TMDB_REFERENCE_NAMESPACE) || same_text(
                namespace,
                TVDB_REFERENCE_NAMESPACE,
            ),
            RecommendationPolicy::SeriesTmdb => same_text(namespace, TMDB_REFERENCE_NAMESPACE),
            RecommendationPolicy::SeriesTvdb => same_text(namespace, TVDB_REFERENCE_NAMESPACE),
        }
    }
}

/// The provider item that a media item becomes, recommending mapping roots
/// by the policy of its library section.
pub fn provider_item(item: &MediaItem, recommendation_policy: RecommendationPolicy) -> (r: ProviderItem)
    ensures
        r@ == provider_item_of(item@, recommendation_policy),
{
    let mut attributes: Vec<Attribute> = Vec::new();
    push_text_attribute(&mut attributes, "summary", optional_text(&item.summary));
    push_integer_attribute(&mut attributes, "duration", item.duration);
    push_text_attribute(
        &mut attributes,
        "originally_available_at",
        optional_text(&item.originally_available_at),
    );
    push_integer_attribute(&mut attributes, "year", item.year);
    push_integer_attribute(&mut attributes, "index", item.index);
    push_integer_attribute(&mut attributes, "parent_index", item.parent_index);
    let ghost fixed = attributes.deep_view();
    assert(fixed =~= item_attributes(item@).take(fixed.len() as int) + genre_attributes(
        item.genres.deep_view().take(0),
    )) by {
        assert(item.genres.deep_view().take(0) =~= seq![]);
        assert(item_attributes(item@) =~= fixed + genre_attributes(item.genres.deep_view()));
    }
    let mut i: usize = 0;
    while i < item.genres.len()
        invariant
            i <= item.genres.len(),
            item_attributes(item@) == fixed + genre_attributes(item.genres.deep_view()),
            attributes.deep_view() == fixed + genre_attributes(item.genres.deep_view().take(i as int)),
        decreases item.genres.len() - i,
    {
        let ghost genres = item.genres.deep_view().take(i as int + 1);
        assert(genres.drop_last() =~= item.genres.deep_view().take(i as int));
        assert(genres.last() == item.genres@[i as int]@);
        push_text_attribute(&mut attributes, "genre", Some(item.genres[i].tag.as_str()));
        assert(attributes.deep_view() =~= fixed + genre_attributes(genres));
        i = i + 1;
    }
    assert(item.genres.deep_view().take(item.genres.len() as int) =~= item.genres.deep_view());

    let mut assets: Vec<BinaryAssetReference> = Vec::new();
    if non_empty(optional_text(&item.thumb)) {
        push_item(&mut assets, asset_reference("poster"));
    }
    if non_empty(optional_text(&item.art)) {
        push_item(&mut assets, asset_reference("backdrop"));
    }
    assert(assets.deep_view() =~= item_assets(item@));

    let (portable_reference_candidates, recommended_mapping_roots) = portable_references(
        item,
        recommendation_policy,
    );
    ProviderItem {
        key: Some(item_key(item.rating_key.as_str())),
        kind: Some(term(MEDIA_NAMESPACE, item.media_type.as_str())),
        display_name: display_name(item),
        attributes,
        portable_reference_candidates,
        assets,
        recommended_mapping_roots,
    }
}

/// The catalog relation that places a media item at a position of its page;
/// an item's own index takes the place of the position.
pub fn catalog_relation(item: &MediaItem, position: usize) -> (r: CatalogRelation)
    ensures
        r@ == catalog_relation_of(item@, position),
{
    let order = match item.index {
        Some(index) => index,
        None => position as i64,
    };
    let mut orders: Vec<i64> = Vec::new();
    orders.push(order);
    assert(orders@ =~= seq![order]);
    let attributes: Vec<Attribute> = Vec::new();
    assert(attributes.deep_view() =~= seq![]);
    CatalogRelation {
        key: Some(relation_key(item.rating_key.as_str())),
        parent_key: match &item.parent_rating_key {
            Some(parent) => Some(relation_key(parent.as_str())),
            None => None,
        },
        provider_item_key: Some(item_key(item.rating_key.as_str())),
        kind: Some(term("dev.trakkin.relation", "contains")),
        order: orders,
        attributes,
    }
}

/// The display name of a provider item puts the item's ancestors before its
/// title, each followed by ` - `: the grandparent and the parent when both
/// titles are non-empty, the parent alone when only its title is, and nothing
/// when the parent's title is empty or missing. The title is the item's own,
/// or `Untitled Plex item ` and the rating key when its own is blank. So a
/// non-empty parent title always stands in the name.
pub proof fn lemma_display_name_names_ancestors(item: MediaItemView, policy: RecommendationPolicy)
    ensures
        ({
            let name = provider_item_of(item, policy).display_name;
            let title = if blank_text(item.title) {
                "Untitled Plex item "@ + item.rating_key
            } else {
                item.title
            };
            let grandparent = item.grandparent_title;
            let parent = item.parent_title;
            &&& grandparent is Some && grandparent->0.len() > 0 && parent is Some && parent->0.len() > 0
                ==> name == grandparent->0 + " - "@ + parent->0 + " - "@ + title
            &&& !(grandparent is Some && grandparent->0.len() > 0) && parent is Some && parent->0.len() > 0
                ==> name == parent->0 + " - "@ + title
            &&& !(parent is Some && parent->0.len() > 0) ==> name == title
            &&& parent is Some && parent->0.len() > 0 ==> exists|i: int|
                0 <= i && i + parent->0.len() <= name.len() && #[trigger] name.subrange(i, i + parent->0.len())
                    == parent->0
        }),
{
    let name = provider_item_of(item, policy).display_name;
    let title = item_title(item);
    if non_empty_text(item.parent_title) {
        let p = item.parent_title.unwrap();
        if non_empty_text(item.grandparent_title) {
            let g = item.grandparent_title.unwrap();
            let front = g + " - "@;
            assert(name == front + p + " - "@ + title);
            let i: int = front.len() as int;
            assert(name.subrange(i, i + p.len()) =~= p);
        } else {
            assert(name == p + " - "@ + title);
            let i: int = 0;
            assert(name.subrange(i, i + p.len()) =~= p);
        }
    }
}

/// Lemma: the references that `unique_references` keeps are those of `s`,
/// each once.
pub proof fn lemma_unique_references(s: Seq<PortableReferenceView>)
    ensures
        unique_references(s).no_duplicates(),
        forall|r: PortableReferenceView| #[trigger] unique_references(s).contains(r) <==> s.contains(r),
    decreases s.len(),
{
    if s.len() > 0 {
        lemma_unique_references(s.drop_last());
        let rest = unique_references(s.drop_last());
        assert forall|r: PortableReferenceView| #[trigger] unique_references(s).contains(r) <==> s.contains(r) by {
            if s.contains(r) {
                let i = choose|i: int| 0 <= i < s.len() && s[i] == r;
                if i < s.len() - 1 {
                    assert(s.drop_last()[i] == r);
                }
            }
            if s.drop_last().contains(r) {
                let i = choose|i: int| 0 <= i < s.drop_last().len() && s.drop_last()[i] == r;
                assert(s[i] == r);
            }
            if !rest.contains(s.last()) {
                if rest.push(s.last()).contains(r) {
                    let i = choose|i: int| 0 <= i < rest.push(s.last()).len() && rest.push(s.last())[i] == r;
                    if i < rest.len() {
                        assert(rest[i] == r);
                    }
                }
                if rest.contains(r) {
                    let i = choose|i: int| 0 <= i < rest.len() && rest[i] == r;
                    assert(rest.push(s.last())[i] == r);
                }
                assert(rest.push(s.last())[rest.len() as int] == s.last());
            }
            assert(s[s.len() - 1] == s.last());
        }
        if !rest.contains(s.last()) {
            assert forall|i: int, j: int| 0 <= i < j < rest.push(s.last()).len() implies rest.push(s.last())[i] != rest.push(s.last())[j] by {
                if j == rest.len() {
                    assert(rest.push(s.last())[i] == rest[i]);
                }
            }
        }
    }
}

/// Law: a provider item's reference candidates hold each reference of its
/// GUIDs exactly once; its recommended roots are candidates that the policy
/// recommends, and there are none without a policy.
pub proof fn lemma_provider_item_references(item: MediaItemView, policy: RecommendationPolicy)
    ensures
        provider_item_of(item, policy).portable_reference_candidates.no_duplicates(),
        forall|r: PortableReferenceView| #[trigger] provider_item_of(item, policy).portable_reference_candidates.contains(r)
            <==> (primary_reference(item.guid, item.media_type) + guid_references(item.guids, item.media_type)).contains(r),
        forall|r: PortableReferenceView| #[trigger] provider_item_of(item, policy).recommended_mapping_roots.contains(r)
            ==> provider_item_of(item, policy).portable_reference_candidates.contains(r) && policy_recommends(policy, r),
        policy == RecommendationPolicy::Disabled ==> provider_item_of(item, policy).recommended_mapping_roots.len() == 0,
{
    lemma_unique_references(primary_reference(item.guid, item.media_type) + guid_references(item.guids, item.media_type));
    lemma_recommended_references(policy, reference_candidates(item));
}

/// Lemma: the recommended references are the recommended members of `s`.
pub proof fn lemma_recommended_references(policy: RecommendationPolicy, s: Seq<PortableReferenceView>)
    ensures
        forall|r: PortableReferenceView| #[trigger] recommended_references(policy, s).contains(r) ==> s.contains(r) && policy_recommends(policy, r),
        policy == RecommendationPolicy::Disabled ==> recommended_references(policy, s).len() == 0,
    decreases s.len(),
{
    if s.len() > 0 {
        lemma_recommended_references(policy, s.drop_last());
        let rest = recommended_references(policy, s.drop_last());
        assert forall|r: PortableReferenceView| #[trigger] recommended_references(policy, s).contains(r) implies s.contains(r) && policy_recommends(policy, r) by {
            if rest.contains(r) {
                let i = choose|i: int| 0 <= i < s.drop_last().len() && s.drop_last()[i] == r;
                assert(s[i] == r);
            } else {
                let t = rest.push(s.last());
                let i = choose|i: int| 0 <= i < t.len() && t[i] == r;
                if i < rest.len() {
                    assert(rest[i] == r);
                }
                assert(s[s.len() - 1] == r);
            }
        }
    }
}

// ---------------------------------------------------------------------------
// State
// ---------------------------------------------------------------------------

pub open spec fn watched_field_view() -> StateFieldView {
    StateFieldView { field: Some(term_view(STATE_NAMESPACE@, WATCHED_FIELD@)), unit: None }
}

pub open spec fn progress_field_view() -> StateFieldView {
    StateFieldView {
        field: Some(term_view(STATE_NAMESPACE@, PROGRESS_FIELD@)),
        unit: Some(term_view(UNIT_NAMESPACE@, "millisecond"@)),
    }
}

pub open spec fn rating_field_view() -> StateFieldView {
    StateFieldView { field: Some(term_view(STATE_NAMESPACE@, RATING_FIELD@)), unit: None }
}

/// The descriptors of the three state fields that Plex keeps: watched (a
/// boolean), progress (whole milliseconds from zero to the largest `i64`) and
/// rating (a decimal from 0 to 10 in steps of 0.5).
pub open spec fn state_field_descriptors() -> Seq<StateFieldDescriptorView> {
    seq![
        StateFieldDescriptorView {
            field: Some(term_view(STATE_NAMESPACE@, WATCHED_FIELD@)),
            unit: None,
            value_kind: ConfigurationValueKind::Boolean,
            rating_scale: None,
            numeric_range: None,
            quantizer: StateFieldQuantizer::Unspecified,
        },
        StateFieldDescriptorView {
            field: Some(term_view(STATE_NAMESPACE@, PROGRESS_FIELD@)),
            unit: Some(term_view(UNIT_NAMESPACE@, "millisecond"@)),
            value_kind: ConfigurationValueKind::Integer,
            rating_scale: None,
            numeric_range: Some(
                crate::sdk::StateFieldNumericRangeView {
                    minimum: "0"@,
                    maximum: decimal_text(i64::MAX as int),
                    step: "1"@,
                },
            ),
            quantizer: StateFieldQuantizer::Exact,
        },
        StateFieldDescriptorView {
            field: Some(term_view(STATE_NAMESPACE@, RATING_FIELD@)),
            unit: None,
            value_kind: ConfigurationValueKind::Decimal,
            rating_scale: Some(
                crate::sdk::RatingScaleView { minimum: "0"@, maximum: "10"@, step: "0.5"@ },
            ),
            numeric_range: None,
            quantizer: StateFieldQuantizer::Unspecified,
        },
    ]
}

/// Whether the item has been watched: its view count is above zero.
pub open spec fn watched_of(item: MediaItemView) -> bool {
    (match item.view_count {
        Some(count) => count,
        None => 0,
    }) > 0
}

/// The playback progress of the item: its view offset, never below zero.
pub open spec fn progress_of(item: MediaItemView) -> i64 {
    let offset = match item.view_offset {
        Some(offset) => offset,
        None => 0,
    };
    if offset > 0 {
        offset
    } else {
        0
    }
}

/// An integer, zero when absent.
pub open spec fn or_zero(value: Option<i64>) -> int {
    match value {
        Some(v) => v as int,
        None => 0,
    }
}

/// A decimal integer, a colon, then `rest`.
pub open spec fn colon_joined(head: int, rest: Seq<char>) -> Seq<char> {
    decimal_text(head) + ":"@ + rest
}

/// The user rating text of a media item, empty without a rating.
pub open spec fn rating_text_of(item: MediaItemView) -> Seq<char> {
    match item.user_rating {
        Some(rating) => rating,
        None => seq![],
    }
}

/// The text of the provider revision of a media item: its update time, last
/// view time, view count, view offset and user rating, separated by colons.
pub open spec fn provider_revision_text(item: MediaItemView) -> Seq<char> {
    colon_joined(
        or_zero(item.updated_at),
        colon_joined(
            or_zero(item.last_viewed_at),
            colon_joined(
                or_zero(item.view_count),
                colon_joined(or_zero(item.view_offset), rating_text_of(item)),
            ),
        ),
    )
}

/// The state value of a field of a media item, when Plex keeps that field
/// and the item has a value for it.
pub open spec fn field_value_of(item: MediaItemView, field: StateFieldView) -> Option<ValueView> {
    if field == watched_field_view() {
        Some(boolean_value_view(watched_of(item)))
    } else if field == progress_field_view() {
        Some(integer_value_view(progress_of(item)))
    } else if field == rating_field_view() {
        match item.user_rating {
            Some(rating) => Some(decimal_value_view(rating)),
            None => None,
        }
    } else {
        None
    }
}

/// The observation of one field of a media item.
pub open spec fn observation_of(
    item: MediaItemView,
    field: StateFieldView,
    observation: ObservationView,
    observed_at: i64,
) -> StateObservationView {
    StateObservationView {
        subject: Some(
            crate::sdk::SubjectReferenceView {
                subject: Some(crate::sdk::SubjectView::ProviderItemKey(key_view("item:"@ + item.rating_key))),
            },
        ),
        field: Some(field),
        observation: Some(observation),
        provider_revision: encode_utf8(provider_revision_text(item)),
        observed_time_milliseconds: observed_at,
    }
}

/// The three observations of a media item: watched, progress, and the rating
/// or, without one, the rating's deletion.
pub open spec fn state_observations_of(item: MediaItemView, observed_at: i64) -> Seq<StateObservationView> {
    seq![
        observation_of(
            item,
            watched_field_view(),
            ObservationView::Value(boolean_value_view(watched_of(item))),
            observed_at,
        ),
        observation_of(
            item,
            progress_field_view(),
            ObservationView::Value(integer_value_view(progress_of(item))),
            observed_at,
        ),
        observation_of(
            item,
            rating_field_view(),
            match item.user_rating {
                Some(rating) => ObservationView::Value(decimal_value_view(rating)),
                None => ObservationView::Deletion(crate::sdk::StateDeletionView {  }),
            },
            observed_at,
        ),
    ]
}

/// The key of an artwork asset names the poster or the backdrop.
pub open spec fn asset_kind_of(asset_key: KeyView) -> Option<Seq<char>> {
    match parsed_key(asset_key, "asset:"@) {
        Some(kind) => if kind == "poster"@ || kind == "backdrop"@ {
            Some(kind)
        } else {
            None
        },
        None => None,
    }
}

/// The descriptors of the state fields that the adapter reports.
pub fn state_fields() -> (r: Vec<StateFieldDescriptor>)
    ensures
        r.deep_view() == state_field_descriptors(),
{
    let mut fields: Vec<StateFieldDescriptor> = Vec::new();
    push_item(
        &mut fields,
        StateFieldDescriptor {
            field: Some(term(STATE_NAMESPACE, WATCHED_FIELD)),
            unit: None,
            value_kind: ConfigurationValueKind::Boolean,
            rating_scale: None,
            numeric_range: None,
            quantizer: StateFieldQuantizer::Unspecified,
        },
    );
    push_item(
        &mut fields,
        StateFieldDescriptor {
            field: Some(term(STATE_NAMESPACE, PROGRESS_FIELD)),
            unit: Some(term(UNIT_NAMESPACE, "millisecond")),
            value_kind: ConfigurationValueKind::Integer,
            rating_scale: None,
            numeric_range: Some(
                StateFieldNumericRange {
                    minimum: owned("0"),
                    maximum: signed_decimal(i64::MAX),
                    step: owned("1"),
                },
            ),
            quantizer: StateFieldQuantizer::Exact,
        },
    );
    push_item(
        &mut fields,
        StateFieldDescriptor {
            field: Some(term(STATE_NAMESPACE, RATING_FIELD)),
            unit: None,
            value_kind: ConfigurationValueKind::Decimal,
            rating_scale: Some(
                RatingScale { minimum: owned("0"), maximum: owned("10"), step: owned("0.5") },
            ),
            numeric_range: None,
            quantizer: StateFieldQuantizer::Unspecified,
        },
    );
    assert(fields.deep_view() =~= state_field_descriptors());
    fields
}

/// The watched field.
pub fn watched_field() -> (r: StateField)
    ensures
        r@ == watched_field_view(),
{
    StateField { field: Some(term(STATE_NAMESPACE, WATCHED_FIELD)), unit: None }
}

/// The progress field, in milliseconds.
pub fn progress_field() -> (r: StateField)
    ensures
        r@ == progress_field_view(),
{
    StateField {
        field: Some(term(STATE_NAMESPACE, PROGRESS_FIELD)),
        unit: Some(term(UNIT_NAMESPACE, "millisecond")),
    }
}

/// The rating field.
pub fn rating_field() -> (r: StateField)
    ensures
        r@ == rating_field_view(),
{
    StateField { field: Some(term(STATE_NAMESPACE, RATING_FIELD)), unit: None }
}

fn same_term(a: &Option<Term>, b: &Option<Term>) -> (r: bool)
    ensures
        r == (a.deep_view() == b.deep_view()),
{
    match (a, b) {
        (Some(a), Some(b)) => same_text(a.namespace.as_str(), b.namespace.as_str()) && same_text(
            a.name.as_str(),
            b.name.as_str(),
        ),
        (None, None) => true,
        _ => false,
    }
}

/// Whether two state fields are the same field in the same unit.
pub fn same_state_field(a: &StateField, b: &StateField) -> (r: bool)
    ensures
        r == (a@ == b@),
{
    same_term(&a.field, &b.field) && same_term(&a.unit, &b.unit)
}

fn watched(item: &MediaItem) -> (r: bool)
    ensures
        r == watched_of(item@),
{
    let count = match item.view_count {
        Some(count) => count,
        None => 0,
    };
    count > 0
}

fn progress(item: &MediaItem) -> (r: i64)
    ensures
        r == progress_of(item@),
{
    let offset = match item.view_offset {
        Some(offset) => offset,
        None => 0,
    };
    if offset > 0 {
        offset
    } else {
        0
    }
}

fn observation(item: &MediaItem, field: StateField, value: Observation, revision: &Vec<u8>, observed_at: i64) -> (r: StateObservation)
    requires
        revision@ == encode_utf8(provider_revision_text(item@)),
    ensures
        r@ == observation_of(item@, field@, value@, observed_at),
{
    StateObservation {
        subject: Some(
            SubjectReference {
                subject: Some(Subject::ProviderItemKey(item_key(item.rating_key.as_str()))),
            },
        ),
        field: Some(field),
        observation: Some(value),
        provider_revision: crate::sdk::copy_bytes(revision),
        observed_time_milliseconds: observed_at,
    }
}

/// The watched, progress and rating observations of a media item.
pub fn state_observations(item: &MediaItem, observed_at: i64) -> (r: Vec<StateObservation>)
    ensures
        r.deep_view() == state_observations_of(item@, observed_at),
{
    let revision = provider_revision(item);
    let mut observations: Vec<StateObservation> = Vec::new();
    push_item(
        &mut observations,
        observation(item, watched_field(), Observation::Value(boolean_value(watched(item))), &revision, observed_at),
    );
    push_item(
        &mut observations,
        observation(item, progress_field(), Observation::Value(integer_value(progress(item))), &revision, observed_at),
    );
    let rating = match &item.user_rating {
        Some(rating) => Observation::Value(decimal_value(rating.as_str())),
        None => Observation::Deletion(StateDeletion {  }),
    };
    push_item(&mut observations, observation(item, rating_field(), rating, &revision, observed_at));
    assert(observations.deep_view() =~= state_observations_of(item@, observed_at));
    observations
}

/// The value of a state field of a media item.
pub fn value_for_field(item: &MediaItem, field: &StateField) -> (r: Option<Value>)
    ensures
        r.deep_view() == field_value_of(item@, field@),
{
    if same_state_field(field, &watched_field()) {
        Some(boolean_value(watched(item)))
    } else if same_state_field(field, &progress_field()) {
        Some(integer_value(progress(item)))
    } else if same_state_field(field, &rating_field()) {
        match &item.user_rating {
            Some(rating) => Some(decimal_value(rating.as_str())),
            None => None,
        }
    } else {
        None
    }
}

/// An item's playback progress is reported as the integer number of
/// milliseconds of its view offset when that offset is zero or more, and as
/// zero when it has none or a negative one; the second observation of the
/// item's state is that progress, and so is the value read for the progress
/// field.
pub proof fn lemma_progress_is_view_offset(item: MediaItemView, observed_at: i64)
    ensures
        state_observations_of(item, observed_at).len() == 3,
        state_observations_of(item, observed_at)[1].field == Some(progress_field_view()),
        item.view_offset is Some && item.view_offset->0 >= 0 ==> {
            &&& state_observations_of(item, observed_at)[1].observation == Some(
                ObservationView::Value(integer_value_view(item.view_offset->0)),
            )
            &&& field_value_of(item, progress_field_view()) == Some(integer_value_view(item.view_offset->0))
        },
        item.view_offset is None || item.view_offset->0 < 0 ==> {
            &&& state_observations_of(item, observed_at)[1].observation == Some(
                ObservationView::Value(integer_value_view(0)),
            )
            &&& field_value_of(item, progress_field_view()) == Some(integer_value_view(0))
        },
{
    assert(progress_field_view() != watched_field_view()) by {
        reveal_strlit("progress");
        reveal_strlit("watched");
        assert(PROGRESS_FIELD@.len() != WATCHED_FIELD@.len());
    }
}

/// The first observation of an item's state says whether it was watched,
/// which is whether its view count is above zero; the third gives its rating,
/// or records the rating's deletion when it has none. All three are about the
/// item's own key and carry the same revision.
pub proof fn lemma_watched_and_rating_observations(item: MediaItemView, observed_at: i64)
    ensures
        state_observations_of(item, observed_at)[0].field == Some(watched_field_view()),
        state_observations_of(item, observed_at)[0].observation == Some(
            ObservationView::Value(boolean_value_view(item.view_count is Some && item.view_count->0 > 0)),
        ),
        state_observations_of(item, observed_at)[2].field == Some(rating_field_view()),
        item.user_rating is Some ==> state_observations_of(item, observed_at)[2].observation == Some(
            ObservationView::Value(decimal_value_view(item.user_rating->0)),
        ),
        item.user_rating is None ==> state_observations_of(item, observed_at)[2].observation == Some(
            ObservationView::Deletion(crate::sdk::StateDeletionView {  }),
        ),
        forall|i: int|
            0 <= i < 3 ==> {
                &&& (#[trigger] state_observations_of(item, observed_at)[i]).subject == Some(
                    crate::sdk::SubjectReferenceView {
                        subject: Some(crate::sdk::SubjectView::ProviderItemKey(key_view("item:"@ + item.rating_key))),
                    },
                )
                &&& state_observations_of(item, observed_at)[i].provider_revision == encode_utf8(
                    provider_revision_text(item),
                )
                &&& state_observations_of(item, observed_at)[i].observed_time_milliseconds == observed_at
            },
{
}

fn decimal_or_zero(value: Option<i64>) -> (r: String)
    ensures
        r@ == decimal_text(or_zero(value)),
{
    match value {
        Some(v) => signed_decimal(v),
        None => signed_decimal(0),
    }
}

/// The provider revision of a media item: the UTF-8 text of its update time,
/// last view time, view count, view offset and user rating.
pub fn provider_revision(item: &MediaItem) -> (r: Vec<u8>)
    ensures
        r@ == encode_utf8(provider_revision_text(item@)),
{
    let mut text = decimal_or_zero(item.updated_at);
    text.append(":");
    text.append(decimal_or_zero(item.last_viewed_at).as_str());
    text.append(":");
    text.append(decimal_or_zero(item.view_count).as_str());
    text.append(":");
    text.append(decimal_or_zero(item.view_offset).as_str());
    text.append(":");
    match &item.user_rating {
        Some(rating) => text.append(rating.as_str()),
        None => {},
    }
    proof {
        let r = rating_text_of(item@);
        assert(text@ =~= provider_revision_text(item@));
    }
    utf8_bytes(text.as_str())
}

/// The kind of artwork that an asset key names: `poster` or `backdrop`.
pub fn asset_kind(asset_key: &Key) -> (r: Option<&str>)
    ensures
        r.deep_view() == asset_kind_of(asset_key@),
{
    let value = match parse_prefixed_key(asset_key, "asset:") {
        Some(value) => value,
        None => return None,
    };
    if same_text(value, "poster") || same_text(value, "backdrop") {
        Some(value)
    } else {
        None
    }
}

/// Clamps a count of milliseconds to the largest `i64`.
pub fn milliseconds_as_i64(milliseconds: u128) -> (r: i64)
    ensures
        r == (if milliseconds > i64::MAX as u128 { i64::MAX as int } else { milliseconds as int }),
{
    if milliseconds > 9223372036854775807u128 {
        i64::MAX
    } else {
        milliseconds as i64
    }
}

/// Milliseconds since the Unix epoch by the system clock, or nothing when the
/// clock stands before the epoch (`SystemTime::now`).
#[verifier::external_body]
fn system_milliseconds_since_epoch() -> (r: Option<u128>) {
    match std::time::SystemTime::now().duration_since(std::time::UNIX_EPOCH) {
        Ok(elapsed) => Some(elapsed.as_millis()),
        Err(_) => None,
    }
}

/// The current time in milliseconds since the Unix epoch; zero when the clock
/// stands before the epoch, and at most the largest `i64`.
pub fn now_milliseconds() -> (r: i64)
    ensures
        r >= 0,
{
    match system_milliseconds_since_epoch() {
        Some(milliseconds) => milliseconds_as_i64(milliseconds),
        None => 0,
    }
}

/// Lemma: the colon-free head of `a + ":" + b` is determined by the text.
proof fn lemma_colon_split(a1: int, b1: Seq<char>, a2: int, b2: Seq<char>)
    requires
        colon_joined(a1, b1) == colon_joined(a2, b2),
    ensures
        a1 == a2,
        b1 == b2,
{
    reveal_strlit(":");
    assert(":"@ =~= seq![':']);
    crate::text::lemma_decimal_text_chars(a1);
    crate::text::lemma_decimal_text_chars(a2);
    crate::text::lemma_separated_injective(decimal_text(a1), b1, decimal_text(a2), b2, ':');
    crate::text::lemma_decimal_text_injective(a1, a2);
}

/// Law: two media items have the same provider revision only when their
/// update time, last view time, view count, view offset and user rating
/// agree; so a change of watch state changes the revision.
pub proof fn lemma_provider_revision_tracks_state(a: MediaItemView, b: MediaItemView)
    requires
        encode_utf8(provider_revision_text(a)) == encode_utf8(provider_revision_text(b)),
    ensures
        or_zero(a.updated_at) == or_zero(b.updated_at),
        or_zero(a.last_viewed_at) == or_zero(b.last_viewed_at),
        or_zero(a.view_count) == or_zero(b.view_count),
        or_zero(a.view_offset) == or_zero(b.view_offset),
        rating_text_of(a) == rating_text_of(b),
{
    let ta = provider_revision_text(a);
    let tb = provider_revision_text(b);
    assert(ta == tb) by {
        assert(decode_utf8(encode_utf8(ta)) == ta);
        assert(decode_utf8(encode_utf8(tb)) == tb);
    }
    let a4 = colon_joined(or_zero(a.view_offset), rating_text_of(a));
    let b4 = colon_joined(or_zero(b.view_offset), rating_text_of(b));
    let a3 = colon_joined(or_zero(a.view_count), a4);
    let b3 = colon_joined(or_zero(b.view_count), b4);
    let a2 = colon_joined(or_zero(a.last_viewed_at), a3);
    let b2 = colon_joined(or_zero(b.last_viewed_at), b3);
    lemma_colon_split(or_zero(a.updated_at), a2, or_zero(b.updated_at), b2);
    lemma_colon_split(or_zero(a.last_viewed_at), a3, or_zero(b.last_viewed_at), b3);
    lemma_colon_split(or_zero(a.view_count), a4, or_zero(b.view_count), b4);
    lemma_colon_split(or_zero(a.view_offset), rating_text_of(a), or_zero(b.view_offset), rating_text_of(b));
}

} // verus!
