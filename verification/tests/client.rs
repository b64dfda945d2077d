use trakkin_providers::client::{
    asset_chunk_allowed, asset_content_type, asset_length_allowed, normalize_base_url, public_asset_url, PlexClient,
    PlexError,
};

#[test]
fn normalizes_a_server_origin() {
    assert_eq!(normalize_base_url("http://plex.local:32400").unwrap().as_str(), "http://plex.local:32400/");
}

#[test]
fn rejects_credentials_and_non_http_schemes() {
    assert!(normalize_base_url("http://token@plex.local:32400").is_err());
    assert!(normalize_base_url("file:///tmp/plex").is_err());
}

#[test]
fn authenticated_requests_cannot_cross_origins() {
    let client = PlexClient::new("http://plex.local:32400", Some("secret".to_owned()), "test-client").unwrap();
    assert!(matches!(client.request_url("https://example.com/image.jpg"), Err(PlexError::InvalidPath)));
}

#[test]
fn a_base_url_keeps_its_path_with_one_trailing_slash() {
    assert_eq!(normalize_base_url("https://plex.example/base///").unwrap(), "https://plex.example/base/");
    assert_eq!(normalize_base_url("http://plex.local:32400?x=1"), Err(PlexError::InvalidBaseUrl));
    assert_eq!(normalize_base_url("http://plex.local:32400#top"), Err(PlexError::InvalidBaseUrl));
    assert_eq!(normalize_base_url("not a url"), Err(PlexError::InvalidBaseUrl));
}

#[test]
fn server_paths_join_the_base_and_drop_plex_tokens() {
    let client = PlexClient::new("http://plex.local:32400/", None, "test-client").unwrap();
    assert_eq!(client.base_url(), "http://plex.local:32400/");
    assert_eq!(
        client.request_url("/library/metadata/42").unwrap(),
        "http://plex.local:32400/library/metadata/42"
    );
    assert_eq!(
        client.request_url("/photo?X-Plex-Token=abc&width=10").unwrap(),
        "http://plex.local:32400/photo?width=10"
    );
}

#[test]
fn request_headers_carry_the_token_only_when_there_is_one() {
    let client = PlexClient::new("http://plex.local:32400", Some("secret".to_owned()), "test-client").unwrap();
    let headers = client.request_headers();
    assert_eq!(headers[0], ("Accept".to_owned(), "application/json".to_owned()));
    assert_eq!(headers[1], ("X-Plex-Client-Identifier".to_owned(), "test-client".to_owned()));
    assert_eq!(headers.last().unwrap(), &("X-Plex-Token".to_owned(), "secret".to_owned()));
    let anonymous = PlexClient::new("http://plex.local:32400", None, "test-client").unwrap();
    assert!(anonymous.request_headers().iter().all(|(name, _)| name != "X-Plex-Token"));
}

#[test]
fn public_assets_must_be_plain_http_urls() {
    assert_eq!(public_asset_url("/library/metadata/42/thumb/1"), Ok(None));
    assert_eq!(
        public_asset_url("https://images.example/poster.jpg?X-Plex-Token=t&size=2"),
        Ok(Some("https://images.example/poster.jpg?size=2".to_owned()))
    );
    assert_eq!(public_asset_url("https://user:pw@images.example/poster.jpg"), Err(PlexError::InvalidAssetUrl));
    assert_eq!(public_asset_url("ftp://images.example/poster.jpg"), Err(PlexError::InvalidAssetUrl));
}

#[test]
fn asset_replies_are_typed_and_bounded() {
    assert_eq!(asset_content_type(Some("image/jpeg; charset=binary")), "image/jpeg");
    assert_eq!(asset_content_type(Some("image/png")), "image/png");
    assert_eq!(asset_content_type(None), "application/octet-stream");
    assert!(asset_length_allowed(Some(10), 10));
    assert!(!asset_length_allowed(Some(11), 10));
    assert!(asset_length_allowed(None, 0));
    assert!(asset_chunk_allowed(6, 4, 10));
    assert!(!asset_chunk_allowed(6, 5, 10));
    assert!(!asset_chunk_allowed(usize::MAX, 1, u64::MAX - 1));
}

#[test]
fn failures_report_their_status() {
    assert_eq!(PlexError::Response(Some(404)).status(), Some(404));
    assert_eq!(PlexError::Transport(None).status(), None);
    assert_eq!(PlexError::AssetNotFound.status(), None);
    assert_eq!(PlexError::InvalidPath.message(), "Plex returned a request path outside the configured server origin");
}
