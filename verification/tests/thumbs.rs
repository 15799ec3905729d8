use onelist::cache::Caches;
use onelist::item::parse_item;
use onelist::model::{RawDriveItem, RawThumbnailSet};
use onelist::thumb::{parse_thumb, Error};
use onelist::web::{settle_thumb, thumb_url_for_size, Size, UpstreamError, WebError};

fn variant(small: Option<&str>, medium: Option<&str>, large: Option<&str>) -> RawThumbnailSet {
    RawThumbnailSet {
        small_url: small.map(|s| s.to_string()),
        medium_url: medium.map(|s| s.to_string()),
        large_url: large.map(|s| s.to_string()),
    }
}

fn item_with_thumbs(id: &str, sets: Vec<RawThumbnailSet>) -> RawDriveItem {
    RawDriveItem {
        id: Some(id.to_string()),
        name: None,
        size: None,
        created_date_time: None,
        last_modified_date_time: None,
        download_url: None,
        parent_path: None,
        mime_type: None,
        thumbnails: Some(sets),
    }
}

#[test]
fn missing_size_defaults_to_empty() {
    let sets = vec![variant(Some("s"), Some("m"), None)];
    let t = parse_thumb(&sets).unwrap();
    assert_eq!(t.small, "s");
    assert_eq!(t.medium, "m");
    assert_eq!(t.large, "");
}

#[test]
fn only_first_variant_is_read() {
    let sets = vec![variant(Some("a"), None, None), variant(Some("b"), Some("c"), Some("d"))];
    let t = parse_thumb(&sets).unwrap();
    assert_eq!(t.small, "a");
    assert_eq!(t.medium, "");
    assert_eq!(t.large, "");
}

#[test]
fn empty_list_fails_to_parse() {
    let sets: Vec<RawThumbnailSet> = Vec::new();
    assert_eq!(parse_thumb(&sets).unwrap_err(), Error::ParseError);
}

#[test]
fn parse_item_populates_thumb_cache() {
    let mut caches = Caches::new(600);
    let item = item_with_thumbs("TH", vec![variant(Some("s"), Some("m"), Some("l"))]);
    parse_item(&item, &mut caches, "/", 0).unwrap();

    let t = caches.thumb_cache.get("TH", 0).unwrap();
    assert_eq!(t.small, "s");
    assert_eq!(t.medium, "m");
    assert_eq!(t.large, "l");
}

#[test]
fn unparsable_thumbs_do_not_fail_the_item() {
    let mut caches = Caches::new(600);
    let item = item_with_thumbs("TH2", Vec::new());
    let fi = parse_item(&item, &mut caches, "/", 0).unwrap();
    assert_eq!(fi.id, "TH2");
    assert!(caches.thumb_cache.get("TH2", 0).is_none());
}

#[test]
fn url_for_size_skips_empty() {
    let sets = vec![variant(Some("s"), None, Some("l"))];
    let t = parse_thumb(&sets).unwrap();
    assert_eq!(thumb_url_for_size(&t, Size::Small), Some(&"s".to_string()));
    assert_eq!(thumb_url_for_size(&t, Size::Medium), None);
    assert_eq!(thumb_url_for_size(&t, Size::Large), Some(&"l".to_string()));
}

#[test]
fn settle_thumb_caches_only_success() {
    let mut caches = Caches::new(600);
    let id = "X1".to_string();

    let err = settle_thumb(&mut caches, &id, Err(UpstreamError::Network), 0);
    assert_eq!(err.unwrap_err(), WebError::Upstream(UpstreamError::Network));
    assert!(caches.thumb_cache.get("X1", 0).is_none());

    let missing = settle_thumb(&mut caches, &id, Ok(None), 0);
    assert_eq!(missing.unwrap_err(), WebError::ItemNotFound);

    let mut no_thumbs = item_with_thumbs("X1", Vec::new());
    no_thumbs.thumbnails = None;
    let bare = settle_thumb(&mut caches, &id, Ok(Some(no_thumbs)), 0);
    assert_eq!(bare.unwrap_err(), WebError::MissingThumbnails);

    let unparsable = settle_thumb(&mut caches, &id, Ok(Some(item_with_thumbs("X1", Vec::new()))), 0);
    assert_eq!(unparsable.unwrap_err(), WebError::ThumbnailParseFailed);
    assert!(caches.thumb_cache.get("X1", 0).is_none());

    let good = item_with_thumbs("X1", vec![variant(None, Some("m"), None)]);
    let t = settle_thumb(&mut caches, &id, Ok(Some(good)), 0).unwrap();
    assert_eq!(t.medium, "m");
    assert_eq!(caches.thumb_cache.get("X1", 0).unwrap().medium, "m");
}
