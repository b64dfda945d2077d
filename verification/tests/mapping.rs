use trakkin_providers::mapping::{
    catalog_relation, item_key, key, parse_item_key, parse_source_key, plex_guid, portable_reference,
    provider_item, provider_revision, relation_key, source_key, state_observations, RecommendationPolicy,
    IMDB_REFERENCE_NAMESPACE, MUSICBRAINZ_REFERENCE_NAMESPACE, PLEX_REFERENCE_NAMESPACE,
    TMDB_REFERENCE_NAMESPACE, TVDB_REFERENCE_NAMESPACE,
};
use trakkin_providers::model::{MediaItem, PlexGuid, Tag};
use trakkin_providers::sdk::{Key, Observation, PortableReference, Value, ValueKind};

fn episode() -> MediaItem {
    MediaItem {
        rating_key: "42".to_owned(),
        key: "/library/metadata/42".to_owned(),
        parent_rating_key: Some("7".to_owned()),
        grandparent_rating_key: Some("3".to_owned()),
        guid: Some("plex://episode/abc".to_owned()),
        media_type: "episode".to_owned(),
        title: "Pilot".to_owned(),
        show_ordering: None,
        parent_title: Some("Season 1".to_owned()),
        grandparent_title: Some("A Show".to_owned()),
        summary: Some("Summary".to_owned()),
        thumb: Some("/library/metadata/42/thumb/1".to_owned()),
        art: None,
        duration: Some(1_800_000),
        added_at: Some(1),
        updated_at: Some(2),
        originally_available_at: Some("2024-01-01".to_owned()),
        year: Some(2024),
        index: Some(1),
        parent_index: Some(1),
        user_rating: Some("8.5".to_owned()),
        view_count: Some(1),
        view_offset: Some(900_000),
        last_viewed_at: Some(3),
        guids: vec![PlexGuid { id: "imdb://tt123".to_owned() }],
        genres: vec![Tag { tag: "Drama".to_owned() }],
    }
}

#[test]
fn maps_hierarchy_references_assets_and_state() {
    let episode = episode();
    let item = provider_item(&episode, RecommendationPolicy::Disabled);
    assert_eq!(item.display_name, "A Show - Season 1 - Pilot");
    assert_eq!(item.portable_reference_candidates.len(), 2);
    assert_eq!(item.portable_reference_candidates[0].namespace, PLEX_REFERENCE_NAMESPACE);
    assert_eq!(item.portable_reference_candidates[0].value, b"episode/abc");
    assert_eq!(item.portable_reference_candidates[1].namespace, IMDB_REFERENCE_NAMESPACE);
    assert_eq!(item.portable_reference_candidates[1].value, b"title/tt123");
    assert!(item.recommended_mapping_roots.is_empty());
    assert_eq!(item.assets.len(), 1);
    assert_eq!(item.assets[0].key, Some(key("asset:poster")));

    let relation = catalog_relation(&episode, 9);
    assert_eq!(relation.parent_key, Some(relation_key("7")));
    assert_eq!(relation.order, vec![1]);

    let state = state_observations(&episode, 10);
    assert_eq!(state.len(), 3);
    assert!(matches!(
        state[0].observation,
        Some(Observation::Value(Value { value: Some(ValueKind::Boolean(true)) }))
    ));
}

#[test]
fn recommends_existing_candidates_for_the_section_policy() {
    let mut episode = episode();
    episode.guids = vec![
        PlexGuid { id: "tmdb://456".to_owned() },
        PlexGuid { id: "tvdb://789".to_owned() },
        PlexGuid { id: "imdb://tt123".to_owned() },
        PlexGuid { id: "plex://episode/abc".to_owned() },
        PlexGuid { id: "tmdb://456".to_owned() },
        PlexGuid { id: "unknown://ignored".to_owned() },
    ];

    let item = provider_item(&episode, RecommendationPolicy::Movie);
    assert_eq!(item.portable_reference_candidates.len(), 4);
    assert_eq!(item.recommended_mapping_roots, item.portable_reference_candidates[1..].to_vec());

    let item = provider_item(&episode, RecommendationPolicy::SeriesTmdb);
    assert_eq!(item.recommended_mapping_roots, vec![item.portable_reference_candidates[1].clone()]);

    let item = provider_item(&episode, RecommendationPolicy::SeriesTvdb);
    assert_eq!(item.recommended_mapping_roots, vec![item.portable_reference_candidates[2].clone()]);

    let item = provider_item(&episode, RecommendationPolicy::Disabled);
    assert!(item.recommended_mapping_roots.is_empty());
}

#[test]
fn canonicalizes_database_namespaces_and_resource_paths() {
    let cases = [
        ("tvdb://123", "show", TVDB_REFERENCE_NAMESPACE, "series/123"),
        ("tvdb://456", "movie", TVDB_REFERENCE_NAMESPACE, "movies/456"),
        ("tmdb://123", "show", TMDB_REFERENCE_NAMESPACE, "tv/123"),
        ("tmdb://456", "movie", TMDB_REFERENCE_NAMESPACE, "movie/456"),
        ("tmdb://789", "episode", TMDB_REFERENCE_NAMESPACE, "tv-episode/789"),
        ("tvdb://789", "episode", TVDB_REFERENCE_NAMESPACE, "episodes/789"),
        ("imdb://nm0000001", "person", IMDB_REFERENCE_NAMESPACE, "name/nm0000001"),
        ("mbid://artist-id", "artist", MUSICBRAINZ_REFERENCE_NAMESPACE, "artist/artist-id"),
        ("mbid://album-id", "album", MUSICBRAINZ_REFERENCE_NAMESPACE, "release-group/album-id"),
        ("mbid://track-id", "track", MUSICBRAINZ_REFERENCE_NAMESPACE, "recording/track-id"),
    ];

    for (guid, media_type, namespace, value) in cases {
        let reference = portable_reference(guid, media_type).expect("portable reference");
        assert_eq!(reference.namespace, namespace);
        assert_eq!(reference.value, value.as_bytes());
        assert_eq!(plex_guid(&reference).as_deref(), Some(guid));
    }
}

#[test]
fn rejects_unknown_or_mismatched_portable_references() {
    assert!(portable_reference("unknown://123", "movie").is_none());
    assert!(plex_guid(&PortableReference {
        namespace: IMDB_REFERENCE_NAMESPACE.to_owned(),
        value: b"name/tt123".to_vec(),
    })
    .is_none());
}

#[test]
fn retains_reverse_dns_guid_candidates() {
    let guid = "org.example.agent://series/123";
    let reference = portable_reference(guid, "show").expect("custom agent reference");

    assert_eq!(reference.namespace, "org.example.agent");
    assert_eq!(reference.value, b"series/123");
}

#[test]
fn provider_revision_tracks_watched_state() {
    let mut episode = episode();
    let unwatched_revision = provider_revision(&episode);

    episode.view_count = Some(2);

    assert_ne!(provider_revision(&episode), unwatched_revision);
}

#[test]
fn rejects_foreign_and_malformed_keys() {
    assert_eq!(parse_item_key(&item_key("42")), Some("42"));
    assert_eq!(parse_source_key(&source_key("1")), Some("1"));
    assert_eq!(parse_item_key(&key("library:1")), None);
    assert_eq!(
        parse_item_key(&Key { namespace: "other".to_owned(), value: b"item:42".to_vec() }),
        None
    );
}

#[test]
fn keys_parse_back_to_what_they_name() {
    assert_eq!(parse_source_key(&source_key("library-7")), Some("library-7"));
    assert_eq!(parse_item_key(&item_key("")), Some(""));
    assert_eq!(parse_source_key(&item_key("1")), None);
}

#[test]
fn a_plex_guid_round_trips_through_its_portable_reference() {
    let reference = portable_reference("plex://movie/5d776", "movie").expect("plex reference");
    assert_eq!(reference.namespace, PLEX_REFERENCE_NAMESPACE);
    assert_eq!(reference.value, b"movie/5d776");
    assert_eq!(plex_guid(&reference).as_deref(), Some("plex://movie/5d776"));
}
