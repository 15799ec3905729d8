use onelist::cache::Caches;
use onelist::config::{normalize_home_dir, ApiType, Authority, Setting};
use onelist::model::RawDriveItem;
use onelist::web::{
    join_request_path, settle_download_url, settle_item, settle_listing, UpstreamError, WebError,
};

#[test]
fn tenant_strings_round_trip() {
    for name in ["consumers", "organizations", "common"] {
        let t = ApiType::from_tenant_string(name);
        assert_eq!(t.tenant_string(), name);
    }
    let issuer = ApiType::from_tenant_string("contoso.example");
    assert!(matches!(&issuer.0, Authority::Issuer(s) if s == "contoso.example"));
    assert_eq!(issuer.tenant_string(), "contoso.example");
}

#[test]
fn home_dir_gets_a_leading_slash() {
    assert_eq!(normalize_home_dir("/abc"), "/abc");
    assert_eq!(normalize_home_dir("abc"), "/abc");
    assert_eq!(normalize_home_dir(""), "/");
}

#[test]
fn default_setting_matches_the_template() {
    let s = Setting::default();
    assert_eq!(s.auth.client_id, "");
    assert_eq!(s.auth.client_secret, "");
    assert!(s.auth.refresh_token.is_none());
    assert!(matches!(s.auth.api_type.0, Authority::Consumers));
    assert_eq!(s.setting.home_dir, "/");
    assert!(!s.setting.use_proxy);
    assert_eq!(s.setting.name, "Onelist");
    assert_eq!(s.setting.port, 3000);
}

#[test]
fn refreshed_token_is_written_back() {
    let mut s = Setting::default();
    s.apply_refreshed_token(&None);
    assert!(s.auth.refresh_token.is_none());

    s.apply_refreshed_token(&Some("fresh".to_string()));
    assert_eq!(s.auth.refresh_token.as_deref(), Some("fresh"));
}

#[test]
fn request_paths_join_under_the_root() {
    assert_eq!(join_request_path("/home", "docs/x"), "/home/docs/x");
    assert_eq!(join_request_path("/", ""), "//");
}

#[test]
fn download_url_is_cached_only_on_success() {
    let mut caches = Caches::new(600);
    let id = "F1".to_string();

    let err = settle_download_url(&mut caches, &id, Err(UpstreamError::Status), 0);
    assert_eq!(err.unwrap_err(), WebError::Upstream(UpstreamError::Status));
    assert!(caches.download_url_cache.get("F1", 0).is_none());

    let ok = settle_download_url(&mut caches, &id, Ok("https://x/f1".to_string()), 0).unwrap();
    assert_eq!(ok, "https://x/f1");
    assert_eq!(caches.download_url_cache.get("F1", 0), Some(&"https://x/f1".to_string()));
}

fn named_item(id: &str, name: &str) -> RawDriveItem {
    RawDriveItem {
        id: Some(id.to_string()),
        name: Some(name.to_string()),
        size: None,
        created_date_time: None,
        last_modified_date_time: None,
        download_url: None,
        parent_path: None,
        mime_type: None,
        thumbnails: None,
    }
}

#[test]
fn listing_is_cached_under_its_directory() {
    let mut caches = Caches::new(600);
    let dir = "/home/d".to_string();

    let err = settle_listing(&mut caches, &dir, Err(UpstreamError::Network), "/home", 0);
    assert_eq!(err.unwrap_err(), WebError::Upstream(UpstreamError::Network));
    assert!(caches.list_cache.get("/home/d", 0).is_none());

    let items = vec![named_item("a", "one"), named_item("b", "two")];
    let children = settle_listing(&mut caches, &dir, Ok(items), "/home", 0).unwrap();
    assert_eq!(children.len(), 2);

    let cached = caches.list_cache.get("/home/d", 0).unwrap();
    assert_eq!(cached.len(), 2);
    assert_eq!(cached[0].id, "a");
    assert_eq!(cached[1].name, "two");

    assert!(caches.file_cache.get("a", 0).is_some());
    assert!(caches.file_cache.get("b", 0).is_some());
}

#[test]
fn item_miss_is_settled_without_caching_failures() {
    let mut caches = Caches::new(600);

    let err = settle_item(&mut caches, Err(UpstreamError::Malformed), "/home", 0);
    assert_eq!(err.unwrap_err(), WebError::Upstream(UpstreamError::Malformed));

    let absent = settle_item(&mut caches, Ok(None), "/home", 0);
    assert_eq!(absent.unwrap_err(), WebError::ItemNotFound);

    let mut nameless = named_item("x", "n");
    nameless.id = None;
    let bad = settle_item(&mut caches, Ok(Some(nameless)), "/home", 0);
    assert_eq!(bad.unwrap_err(), WebError::NormalizationFailed);
    assert!(caches.file_cache.get("x", 0).is_none());

    let fi = settle_item(&mut caches, Ok(Some(named_item("x", "n"))), "/home", 0).unwrap();
    assert_eq!(fi.id, "x");
    assert_eq!(caches.file_cache.get("x", 0).unwrap().name, "n");
}

#[test]
fn error_messages_name_the_failure() {
    assert_eq!(WebError::NotReady.message(), "server still in the process of starting up");
    assert_eq!(WebError::LocationNotFound.message(), "location not found");
    assert_eq!(WebError::Upstream(UpstreamError::Network).message(), "upstream request failed");
    assert_eq!(WebError::ItemNotFound.message(), "item not found");
    assert_eq!(WebError::MissingThumbnails.message(), "no thumbnails found");
    assert_eq!(WebError::ThumbnailParseFailed.message(), "failed to parse the thumbnails");
    assert_eq!(WebError::NormalizationFailed.message(), "failed to normalize the item");
}
