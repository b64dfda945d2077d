use trakkin_providers::adapter::{
    catalog_batch, configuration_fields, lookup_call, lookup_failure, lookup_guid, lookup_outcome, pagination_failure,
    plex_failure, source_revision, state_batch, validation_problems, HttpMethod,
};
use trakkin_providers::client::PlexError;
use trakkin_providers::connection::{listed_section, plex_status};
use trakkin_providers::mapping::{
    item_policy, ordering_policy, relation_key, section_policy, show_ordering_setting, RecommendationPolicy,
    SectionPolicy, IMDB_REFERENCE_NAMESPACE, TMDB_REFERENCE_NAMESPACE, TVDB_REFERENCE_NAMESPACE,
};
use trakkin_providers::model::{LibrarySection, MediaItem, MetadataContainer, PlexGuid, ServerInfo};
use trakkin_providers::paging::{PageOutcome, PageRequest, PagedRead};
use trakkin_providers::sdk::{
    CatalogBatch, CatalogEvent, ConfigurationValue, LookupOutcome, OperationFailure, PortableReference,
    ReadCompleted, StateBatch, StateEvent, Value, ValueKind,
};
use trakkin_providers::service::ServiceErrorCode;

const SERIES_AGENT: &str = "tv.plex.agents.series";
const MOVIE_AGENT: &str = "tv.plex.agents.movie";

fn server() -> ServerInfo {
    ServerInfo {
        machine_identifier: "server-1".to_owned(),
        friendly_name: "Home Plex".to_owned(),
        version: "1.43.2".to_owned(),
        updated_at: 100,
    }
}

fn library(key: &str, uuid: &str, title: &str, media_type: &str, updated_at: i64) -> LibrarySection {
    LibrarySection {
        key: key.to_owned(),
        uuid: uuid.to_owned(),
        title: title.to_owned(),
        media_type: media_type.to_owned(),
        updated_at,
    }
}

fn movie_section() -> LibrarySection {
    library("1", "movies-1", "Movies", "movie", 200)
}

fn media(rating_key: &str, guid: &str, media_type: &str, title: &str, guids: &[&str]) -> MediaItem {
    MediaItem {
        rating_key: rating_key.to_owned(),
        key: format!("/library/metadata/{rating_key}"),
        guid: Some(guid.to_owned()),
        media_type: media_type.to_owned(),
        title: title.to_owned(),
        guids: guids.iter().map(|id| PlexGuid { id: (*id).to_owned() }).collect(),
        ..MediaItem::default()
    }
}

fn page(offset: usize, total_size: Option<usize>, metadata: Vec<MediaItem>) -> MetadataContainer {
    MetadataContainer { size: metadata.len(), offset, total_size, metadata }
}

/// A page that Plex answers to a request of this path, item type, start and
/// size.
struct Answer {
    path: &'static str,
    media_type: Option<&'static str>,
    start: usize,
    size: usize,
    page: MetadataContainer,
}

fn answer(path: &'static str, media_type: Option<&'static str>, start: usize, size: usize, page: MetadataContainer) -> Answer {
    Answer { path, media_type, start, size, page }
}

/// Checks that a request is the one the answer is for.
fn expect_request(request: PageRequest, expected: &Answer) -> usize {
    let PageRequest::Fetch { path, query, start, size } = request else {
        panic!("the read completed before every page was asked for");
    };
    assert_eq!(path, expected.path);
    assert_eq!(query[0], ("includeGuids".to_owned(), "1".to_owned()));
    assert_eq!(query.get(1).map(|(_, value)| value.as_str()), expected.media_type);
    assert_eq!(start, expected.start);
    assert_eq!(size, expected.size);
    start
}

enum Ended<B> {
    Batches(Vec<B>),
    Failed(Vec<B>, OperationFailure),
}

/// Runs a paged read over the answers, turning each page into a batch.
fn run_read<B>(
    section: &LibrarySection,
    batch_size: u32,
    answers: Vec<Answer>,
    failure_code: &str,
    mut batch: impl FnMut(u64, &Vec<MediaItem>, usize) -> B,
) -> Ended<B> {
    let mut read = PagedRead::new(section, batch_size);
    let mut batches = Vec::new();
    for expected in &answers {
        let start = expect_request(read.next_request(), expected);
        let returned = expected.page.metadata.len();
        match read.after_page(expected.page.offset, returned, expected.page.total_size) {
            PageOutcome::Batch(sequence) => batches.push(batch(sequence, &expected.page.metadata, start)),
            PageOutcome::Empty => {}
            PageOutcome::NotAdvancing => return Ended::Failed(batches, pagination_failure(failure_code)),
        }
    }
    assert_eq!(read.next_request(), PageRequest::Complete);
    Ended::Batches(batches)
}

fn catalog_events(section: &LibrarySection, policy: SectionPolicy, batch_size: u32, answers: Vec<Answer>) -> Vec<CatalogEvent> {
    let ended = run_read(section, batch_size, answers, "catalog_pagination_invalid", |sequence, items, start| {
        catalog_batch(sequence, items, start, policy)
    });
    match ended {
        Ended::Batches(batches) => {
            let revision = source_revision(&server(), section);
            let mut events: Vec<CatalogEvent> = batches.into_iter().map(CatalogEvent::Batch).collect();
            events.push(CatalogEvent::Completed(ReadCompleted {
                next_cursor: revision.clone(),
                evidence_revision: revision,
                observed_time_milliseconds: 0,
            }));
            events
        }
        Ended::Failed(batches, failure) => {
            let mut events: Vec<CatalogEvent> = batches.into_iter().map(CatalogEvent::Batch).collect();
            events.push(CatalogEvent::Failed(trakkin_providers::sdk::ReadFailed { error: Some(failure) }));
            events
        }
    }
}

fn nonadvancing_movie_pages() -> Vec<Answer> {
    vec![
        answer(
            "/library/sections/1/all",
            None,
            0,
            2,
            page(
                0,
                Some(3),
                vec![
                    media("10", "plex://movie/first", "movie", "First", &[]),
                    media("20", "plex://movie/second", "movie", "Second", &[]),
                ],
            ),
        ),
        answer(
            "/library/sections/1/all",
            None,
            2,
            2,
            page(0, Some(3), vec![media("30", "plex://movie/third", "movie", "Third", &[])]),
        ),
    ]
}

fn namespaces(batch: &CatalogBatch, item: usize) -> Vec<&str> {
    batch.item_upserts[item].recommended_mapping_roots.iter().map(|reference| reference.namespace.as_str()).collect()
}

fn configuration(key: &str, text: &str) -> ConfigurationValue {
    ConfigurationValue { key: key.to_owned(), value: Some(Value { value: Some(ValueKind::Text(text.to_owned())) }) }
}

#[test]
fn exposes_server_url_without_requesting_a_manual_token() {
    let fields = configuration_fields();
    assert_eq!(fields.len(), 1);
    assert_eq!(fields[0].key, "server_url");
    assert!(!fields[0].secret);

    let problems = validation_problems(&vec![configuration("server_url", "http://localhost:32400")], &Vec::new());
    assert!(problems.is_empty());
}

#[test]
fn rejects_a_nonadvancing_catalog_page() {
    let events = catalog_events(&movie_section(), SectionPolicy::Movie, 2, nonadvancing_movie_pages());
    assert!(!events.iter().any(|event| matches!(event, CatalogEvent::Completed(_))));
    let Some(CatalogEvent::Failed(failed)) = events.last() else {
        panic!("catalog stream did not end in failure");
    };
    assert_eq!(failed.error.as_ref().expect("catalog failure").code, "catalog_pagination_invalid");
}

#[test]
fn rejects_a_nonadvancing_state_page() {
    let ended = run_read(&movie_section(), 2, nonadvancing_movie_pages(), "state_pagination_invalid", |sequence, items, _| {
        state_batch(sequence, items, 5)
    });
    let events: Vec<StateEvent> = match ended {
        Ended::Batches(batches) => batches.into_iter().map(StateEvent::Batch).collect(),
        Ended::Failed(batches, failure) => {
            let mut events: Vec<StateEvent> = batches.into_iter().map(StateEvent::Batch).collect::<Vec<_>>();
            events.push(StateEvent::Failed(trakkin_providers::sdk::ReadFailed { error: Some(failure) }));
            events
        }
    };
    assert!(!events.iter().any(|event| matches!(event, StateEvent::Completed(_))));
    let Some(StateEvent::Failed(failed)) = events.last() else {
        panic!("state stream did not end in failure");
    };
    assert_eq!(failed.error.as_ref().expect("state failure").code, "state_pagination_invalid");
    let StateEvent::Batch(StateBatch { sequence, .. }) = &events[0] else {
        panic!("state stream did not begin with a batch");
    };
    assert_eq!(*sequence, 0);
}

#[test]
fn source_refresh_evicts_removed_libraries() {
    let listed = listed_section(&Ok(vec![movie_section()]), "1").unwrap();
    assert_eq!(listed, movie_section());
    let error = listed_section(&Ok(Vec::new()), "1").unwrap_err();
    assert_eq!(error.code, ServiceErrorCode::NotFound);
}

#[test]
fn source_refresh_preserves_the_plex_http_failure() {
    let error = listed_section(&Err(PlexError::Response(Some(503))), "missing").unwrap_err();
    assert_eq!(error.code, ServiceErrorCode::Unavailable);
    assert!(error.message.contains("503 Service Unavailable"));
}

#[test]
fn streams_an_authenticated_paginated_catalog() {
    let policy = section_policy(MOVIE_AGENT, None);
    assert_eq!(policy, SectionPolicy::Movie);
    let answers = vec![
        answer(
            "/library/sections/1/all",
            None,
            0,
            2,
            page(
                0,
                Some(3),
                vec![
                    MediaItem {
                        year: Some(2024),
                        ..media("10", "plex://movie/first", "movie", "First", &["imdb://tt0000010", "tmdb://10", "tvdb://20"])
                    },
                    media("20", "plex://movie/second", "movie", "Second", &[]),
                ],
            ),
        ),
        answer(
            "/library/sections/1/all",
            None,
            2,
            2,
            page(2, Some(3), vec![media("30", "plex://movie/third", "movie", "Third", &[])]),
        ),
    ];
    let events = catalog_events(&movie_section(), policy, 2, answers);
    assert_eq!(events.len(), 3);
    let CatalogEvent::Batch(first_batch) = &events[0] else {
        panic!("first catalog event was not a batch");
    };
    assert_eq!(first_batch.item_upserts.len(), 2);
    assert_eq!(first_batch.item_upserts[0].display_name, "First");
    assert_eq!(first_batch.item_upserts[0].portable_reference_candidates.len(), 4);
    assert_eq!(
        namespaces(first_batch, 0),
        vec![IMDB_REFERENCE_NAMESPACE, TMDB_REFERENCE_NAMESPACE, TVDB_REFERENCE_NAMESPACE]
    );
    let CatalogEvent::Batch(second_batch) = &events[1] else {
        panic!("second catalog event was not a batch");
    };
    assert_eq!(second_batch.sequence, 1);
    assert_eq!(second_batch.item_upserts[0].display_name, "Third");
    assert!(matches!(events[2], CatalogEvent::Completed(_)));
}

#[test]
fn applies_show_ordering_with_section_fallback_to_catalog_and_lookup() {
    let section = library("2", "series-2", "Series", "show", 300);
    let settings = vec![
        ("includeAdult".to_owned(), None),
        ("showOrdering".to_owned(), Some("tmdbAiring".to_owned())),
    ];
    let policy = section_policy(SERIES_AGENT, show_ordering_setting(&settings));
    assert_eq!(policy, SectionPolicy::Series(RecommendationPolicy::SeriesTmdb));

    let section_default = MediaItem {
        show_ordering: None,
        ..media("50", "plex://show/default", "show", "Section Default", &["imdb://tt0000050", "tmdb://50", "tvdb://150"])
    };
    let show_override = MediaItem {
        show_ordering: Some("tvdbDvd".to_owned()),
        ..media("51", "plex://show/override", "show", "Show Override", &["tmdb://51", "tvdb://151"])
    };
    let season = MediaItem {
        parent_rating_key: Some("50".to_owned()),
        parent_title: Some("Section Default".to_owned()),
        index: Some(1),
        ..media("70", "plex://season/default-1", "season", "Season 1", &[])
    };
    let long_guid = format!("org.example.agent://{}", "x".repeat(1_025));
    let episode = MediaItem {
        parent_rating_key: Some("70".to_owned()),
        grandparent_rating_key: Some("50".to_owned()),
        parent_title: Some("Season 1".to_owned()),
        grandparent_title: Some("Section Default".to_owned()),
        index: Some(1),
        parent_index: Some(1),
        ..media("80", "plex://episode/default-1-1", "episode", "\n", &[long_guid.as_str()])
    };
    let answers = vec![
        answer(
            "/library/sections/2/all",
            Some("2"),
            0,
            10,
            page(0, Some(2), vec![section_default, show_override.clone()]),
        ),
        answer("/library/sections/2/all", Some("3"), 0, 10, page(0, None, vec![season])),
        answer("/library/sections/2/all", Some("4"), 0, 10, page(0, None, vec![episode])),
    ];
    let events = catalog_events(&section, policy, 10, answers);
    assert_eq!(events.len(), 4);
    let CatalogEvent::Batch(batch) = &events[0] else {
        panic!("series catalog did not begin with a batch");
    };
    assert_eq!(namespaces(batch, 0), vec![TMDB_REFERENCE_NAMESPACE]);
    assert_eq!(namespaces(batch, 1), vec![TVDB_REFERENCE_NAMESPACE]);
    let CatalogEvent::Batch(season_batch) = &events[1] else {
        panic!("series catalog did not include a season batch");
    };
    assert_eq!(season_batch.relation_upserts[0].parent_key, Some(relation_key("50")));
    let CatalogEvent::Batch(episode_batch) = &events[2] else {
        panic!("series catalog did not include an episode batch");
    };
    assert_eq!(episode_batch.item_upserts[0].display_name, "Section Default - Season 1 - Untitled Plex item 80");
    assert_eq!(episode_batch.item_upserts[0].portable_reference_candidates.len(), 1);
    assert_eq!(episode_batch.relation_upserts[0].parent_key, Some(relation_key("70")));

    let requested = PortableReference { namespace: TVDB_REFERENCE_NAMESPACE.to_owned(), value: b"series/151".to_vec() };
    assert_eq!(lookup_guid(&requested).as_deref(), Some("tvdb://151"));
    let LookupOutcome::Matched(Some(matched)) = lookup_outcome(&requested, &vec![show_override], policy) else {
        panic!("series reference did not resolve");
    };
    let provider_item = matched.provider_item.expect("matched series provider item");
    let roots: Vec<&str> =
        provider_item.recommended_mapping_roots.iter().map(|reference| reference.namespace.as_str()).collect();
    assert_eq!(roots, vec![TVDB_REFERENCE_NAMESPACE]);
}

#[test]
fn does_not_recommend_routes_for_unsupported_agents() {
    let section = library("3", "legacy-movies-3", "Legacy Movies", "movie", 400);
    let policy = section_policy("com.plexapp.agents.imdb", None);
    assert_eq!(policy, SectionPolicy::Unsupported);
    let answers = vec![answer(
        "/library/sections/3/all",
        None,
        0,
        10,
        page(
            0,
            Some(1),
            vec![media("60", "plex://movie/legacy", "movie", "Legacy", &["imdb://tt0000060", "tmdb://60", "tvdb://160"])],
        ),
    )];
    let events = catalog_events(&section, policy, 10, answers);
    let CatalogEvent::Batch(batch) = &events[0] else {
        panic!("unsupported-agent catalog did not begin with a batch");
    };
    assert_eq!(batch.item_upserts[0].portable_reference_candidates.len(), 4);
    assert!(batch.item_upserts[0].recommended_mapping_roots.is_empty());
}

#[test]
fn looks_up_canonical_portable_references_through_plex_guids() {
    let requested = PortableReference { namespace: TVDB_REFERENCE_NAMESPACE.to_owned(), value: b"series/123".to_vec() };
    assert_eq!(lookup_guid(&requested).as_deref(), Some("tvdb://123"));
    let call = lookup_call("1", &requested).expect("a TVDB reference can be looked up");
    assert_eq!(call.method, HttpMethod::Get);
    assert_eq!(call.path, "/library/sections/1/all");
    assert_eq!(
        call.query,
        vec![("guid".to_owned(), "tvdb://123".to_owned()), ("includeGuids".to_owned(), "1".to_owned())]
    );
    let unsupported = PortableReference { namespace: "org.example".to_owned(), value: vec![0xff] };
    assert!(lookup_call("1", &unsupported).is_none());
    assert_eq!(lookup_failure(&PlexError::Transport(None)).code, "reference_lookup_failed");
    let items = vec![
        media("41", "plex://movie/collision", "movie", "Wrong database subset", &["tvdb://123"]),
        media("42", "plex://show/example", "show", "Example", &["tvdb://123"]),
    ];
    let LookupOutcome::Matched(Some(matched)) = lookup_outcome(&requested, &items, section_policy(MOVIE_AGENT, None))
    else {
        panic!("portable reference did not resolve to one subset-matched item");
    };
    assert_eq!(matched.provider_item.map(|item| item.display_name), Some("Example".to_owned()));
}

#[test]
fn episode_orderings_name_their_database() {
    assert_eq!(ordering_policy("tmdbAiring"), Some(RecommendationPolicy::SeriesTmdb));
    assert_eq!(ordering_policy("tvdbDvd"), Some(RecommendationPolicy::SeriesTvdb));
    assert_eq!(ordering_policy("aired"), Some(RecommendationPolicy::SeriesTvdb));
    assert_eq!(ordering_policy("absolute"), Some(RecommendationPolicy::SeriesTvdb));
    assert_eq!(ordering_policy(""), None);
    assert_eq!(section_policy(SERIES_AGENT, None), SectionPolicy::Series(RecommendationPolicy::Disabled));
    assert_eq!(section_policy(SERIES_AGENT, Some("unknown")), SectionPolicy::Series(RecommendationPolicy::Disabled));
    let own = MediaItem { show_ordering: Some("tmdbAiring".to_owned()), ..MediaItem::default() };
    assert_eq!(item_policy(SectionPolicy::Series(RecommendationPolicy::Disabled), &own), RecommendationPolicy::SeriesTmdb);
    assert_eq!(item_policy(SectionPolicy::Movie, &own), RecommendationPolicy::Movie);
    assert_eq!(item_policy(SectionPolicy::Unsupported, &own), RecommendationPolicy::Disabled);
    assert_eq!(show_ordering_setting(&vec![("showOrdering".to_owned(), None)]), None);
}

#[test]
fn plex_failures_read_with_their_status() {
    assert_eq!(PlexError::Response(Some(404)).text(), "Plex returned HTTP 404 Not Found");
    assert_eq!(PlexError::Response(Some(599)).text(), "Plex returned HTTP 599");
    assert_eq!(PlexError::Response(None).text(), "Plex returned an HTTP error status");
    assert_eq!(PlexError::Transport(Some(500)).text(), "Plex request failed");
    let status = plex_status(&PlexError::InvalidPath);
    assert_eq!(status.code, ServiceErrorCode::Unavailable);
    assert_eq!(status.message, "Plex returned a request path outside the configured server origin");
    let failure = plex_failure(&PlexError::Response(Some(503)), "state_read_failed", "Plex watch state could not be read.");
    assert_eq!(failure.code, "state_read_failed");
}

#[test]
fn diagnostic_identifiers_are_lowercase_hyphenated_uuids() {
    let failure = plex_failure(&PlexError::Transport(None), "catalog_read_failed", "The Plex library catalog could not be read.");
    let id = failure.diagnostic_id.strip_prefix("plex:").expect("plex diagnostic prefix");
    assert_eq!(id.len(), 36);
    for (i, c) in id.chars().enumerate() {
        if [8, 13, 18, 23].contains(&i) {
            assert_eq!(c, '-');
        } else {
            assert!(c.is_ascii_digit() || ('a'..='f').contains(&c));
        }
    }
    assert_eq!(id.chars().nth(14), Some('4'));
    assert!(matches!(id.chars().nth(19), Some('8' | '9' | 'a' | 'b')));
}

#[test]
fn texts_are_lowercased_and_numbered_exactly() {
    let url = trakkin_providers::client::public_asset_url("https://images.example/p.jpg?X-PLEX-TOKEN=secret&size=2").unwrap();
    assert_eq!(url.as_deref(), Some("https://images.example/p.jpg?size=2"));
    assert_eq!(PlexError::Response(Some(404)).text(), "Plex returned HTTP 404 Not Found");
    let revision = source_revision(
        &ServerInfo { machine_identifier: "m".to_owned(), friendly_name: String::new(), version: "1".to_owned(), updated_at: -12 },
        &library("7", "u", "Movies", "movie", 1_234_567_890),
    );
    assert_eq!(revision, b"m:1:-12:1234567890".to_vec());
}
