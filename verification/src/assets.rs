//! Serving the artwork of Plex items.
use vstd::prelude::*;

use crate::adapter::{failure_class_of, is_plex_failure, plex_failure, MAX_ASSET_BYTES};
use crate::client::PlexError;
use crate::hashing::{sha256, sha256_digest};
use crate::mapping::{term, term_view};
use crate::model::{MediaItem, MediaItemView};
use crate::sdk::{
    AssetOutcome, AssetOutcomeView, ContentHash, ContentHashView, ReadAssetResponse, ReadAssetResponseView,
    ReadAssetResult, ReadAssetResultView,
};
use crate::service::{ServiceError, ServiceErrorCode};
use crate::sdk::copy_optional_text;
use crate::text::{owned, same_text};

verus! {

/// How long a host may keep served artwork.
pub const ASSET_CACHE_CONTROL: &'static str = "private, max-age=86400";

/// An asset request is refused without an operation identifier or with a
/// limit of zero bytes.
pub open spec fn asset_request_valid(operation_id: Seq<u8>, maximum_bytes: u64) -> bool {
    operation_id.len() > 0 && maximum_bytes > 0
}

/// Checks the shape of an asset request.
pub fn check_asset_request(operation_id: &Vec<u8>, maximum_bytes: u64) -> (r: Result<(), ServiceError>)
    ensures
        r is Ok <==> asset_request_valid(operation_id@, maximum_bytes),
        r matches Err(e) ==> e.code == ServiceErrorCode::InvalidArgument,
{
    if operation_id.len() == 0 || maximum_bytes == 0 {
        Err(ServiceError::new(ServiceErrorCode::InvalidArgument, "operation ID and maximum bytes are required"))
    } else {
        Ok(())
    }
}

/// The most bytes served for a request: what it asks for, at most sixteen
/// mebibytes.
pub fn asset_limit(maximum_bytes: u64) -> (r: u64)
    ensures
        r == if maximum_bytes < MAX_ASSET_BYTES {
            maximum_bytes
        } else {
            MAX_ASSET_BYTES
        },
{
    if maximum_bytes < MAX_ASSET_BYTES {
        maximum_bytes
    } else {
        MAX_ASSET_BYTES
    }
}

/// Where an item's artwork of a kind lives: the poster is its thumbnail, the
/// backdrop its art.
pub open spec fn asset_path_of(item: MediaItemView, kind: Seq<char>) -> Option<Seq<char>> {
    if kind == "poster"@ {
        item.thumb
    } else if kind == "backdrop"@ {
        item.art
    } else {
        None
    }
}

/// Where an item's artwork of a kind lives.
pub fn asset_path(item: &MediaItem, kind: &str) -> (r: Option<String>)
    ensures
        r.deep_view() == asset_path_of(item@, kind@),
{
    if same_text(kind, "poster") {
        copy_optional_text(&item.thumb)
    } else if same_text(kind, "backdrop") {
        copy_optional_text(&item.art)
    } else {
        None
    }
}

/// The answer that serves artwork: its bytes, their type and length, their
/// SHA-256 digest, and a private day-long cache lifetime.
pub open spec fn asset_served_of(content: Seq<u8>, content_type: Seq<char>) -> ReadAssetResponseView {
    ReadAssetResponseView {
        outcome: Some(
            AssetOutcomeView::Result(
                ReadAssetResultView {
                    content,
                    content_type,
                    full_length: content.len() as u64,
                    hash: Some(ContentHashView { algorithm: Some(term_view("trakkin"@, "sha256"@)), digest: sha256(content) }),
                    cache_control: ASSET_CACHE_CONTROL@,
                },
            ),
        ),
    }
}

/// The answer that serves artwork.
pub fn asset_served(content: Vec<u8>, content_type: String) -> (r: ReadAssetResponse)
    ensures
        r@ == asset_served_of(content@, content_type@),
{
    let digest = sha256_digest(content.as_slice());
    let full_length = content.len() as u64;
    ReadAssetResponse {
        outcome: Some(
            AssetOutcome::Result(
                ReadAssetResult {
                    content,
                    content_type,
                    full_length,
                    hash: Some(ContentHash { algorithm: Some(term("trakkin", "sha256")), digest }),
                    cache_control: owned(ASSET_CACHE_CONTROL),
                },
            ),
        ),
    }
}

/// The answer when artwork could not be read.
pub fn asset_failed(error: &PlexError) -> (r: ReadAssetResponse)
    ensures
        r@.outcome matches Some(AssetOutcomeView::Error(f)) && is_plex_failure(
            f,
            failure_class_of(*error).0,
            "asset_read_failed"@,
            "The Plex artwork could not be read."@,
            failure_class_of(*error).1,
        ),
{
    ReadAssetResponse {
        outcome: Some(AssetOutcome::Error(plex_failure(error, "asset_read_failed", "The Plex artwork could not be read."))),
    }
}

/// The answer to an asset request once the artwork was fetched or not: an
/// item without such artwork fails as not found.
pub fn asset_response(fetched: Option<Result<(Vec<u8>, String), PlexError>>) -> (r: ReadAssetResponse)
    ensures
        fetched is None ==> (r@.outcome matches Some(AssetOutcomeView::Error(f)) && is_plex_failure(
            f,
            failure_class_of(PlexError::AssetNotFound).0,
            "asset_read_failed"@,
            "The Plex artwork could not be read."@,
            failure_class_of(PlexError::AssetNotFound).1,
        )),
        fetched matches Some(Ok(pair)) ==> r@ == asset_served_of(pair.0@, pair.1@),
        fetched matches Some(Err(e)) ==> (r@.outcome matches Some(AssetOutcomeView::Error(f)) && is_plex_failure(
            f,
            failure_class_of(e).0,
            "asset_read_failed"@,
            "The Plex artwork could not be read."@,
            failure_class_of(e).1,
        )),
{
    match fetched {
        None => asset_failed(&PlexError::AssetNotFound),
        Some(Ok((content, content_type))) => asset_served(content, content_type),
        Some(Err(error)) => asset_failed(&error),
    }
}

} // verus!
