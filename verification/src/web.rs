//! The compute halves of the request handlers.
//!
//! A handler consults its cache tier, and on a miss performs one
//! upstream call; what it does with the call's outcome -- normalize,
//! populate the tier, pick an error -- is decided here. Only successful
//! outcomes ever populate a cache tier.

use vstd::prelude::*;
use vstd::string::*;

use crate::cache::{Caches, CachesV};
use crate::item::{
    spec_caches_after, spec_caches_after_list, spec_normalize, spec_normalize_list, parse_item,
    normalize_children, ttls_unchanged,
};
use crate::model::{FileInfo, RawDriveItem, Thumbnails, ThumbnailsV};
use crate::strutil::concat_str;
use crate::thumb::{parse_thumb, spec_parse_thumb};

verus! {

/// The thumbnail size a request asks for.
#[derive(Clone, Copy, PartialEq, Eq, Structural, Debug)]
pub enum Size {
    Small,
    Medium,
    Large,
}

/// Ways one upstream call fails, as the surrounding runtime reports
/// them.
#[derive(Clone, Copy, PartialEq, Eq, Structural, Debug)]
pub enum UpstreamError {
    /// The call did not reach the upstream or timed out.
    Network,
    /// The upstream answered with a non-success status.
    Status,
    /// The upstream's answer could not be read.
    Malformed,
}

/// Ways one request fails.
#[derive(Clone, Copy, PartialEq, Eq, Structural, Debug)]
pub enum WebError {
    /// No session has been published yet: try again shortly.
    NotReady,
    /// The requested path cannot be addressed upstream.
    LocationNotFound,
    /// The upstream call for this request failed.
    Upstream(UpstreamError),
    /// The upstream knows no item under the requested location.
    ItemNotFound,
    /// The item exists but carries no thumbnail data.
    MissingThumbnails,
    /// The item's thumbnail data has no readable first record.
    ThumbnailParseFailed,
    /// The item could not be normalized (it has no identifier).
    NormalizationFailed,
}

impl WebError {
    /// The message a response body carries for this failure.
    pub fn message(&self) -> (r: &'static str)
        ensures
            *self is NotReady ==> r@ == "server still in the process of starting up"@,
            *self is LocationNotFound ==> r@ == "location not found"@,
            *self is Upstream ==> r@ == "upstream request failed"@,
            *self is ItemNotFound ==> r@ == "item not found"@,
            *self is MissingThumbnails ==> r@ == "no thumbnails found"@,
            *self is ThumbnailParseFailed ==> r@ == "failed to parse the thumbnails"@,
            *self is NormalizationFailed ==> r@ == "failed to normalize the item"@,
    {
        match self {
            WebError::NotReady => "server still in the process of starting up",
            WebError::LocationNotFound => "location not found",
            WebError::Upstream(_) => "upstream request failed",
            WebError::ItemNotFound => "item not found",
            WebError::MissingThumbnails => "no thumbnails found",
            WebError::ThumbnailParseFailed => "failed to parse the thumbnails",
            WebError::NormalizationFailed => "failed to normalize the item",
        }
    }
}

/// The URL a `Thumbnails` value holds for one requested size.
pub open spec fn spec_size_url(t: ThumbnailsV, size: Size) -> Seq<char> {
    match size {
        Size::Small => t.small,
        Size::Medium => t.medium,
        Size::Large => t.large,
    }
}

/// Picks the URL of the requested size out of a thumbnail set; an empty
/// URL -- the size was absent upstream -- is not served.
pub fn thumb_url_for_size<'a>(t: &'a Thumbnails, size: Size) -> (r: Option<&'a String>)
    ensures
        match r {
            Some(u) => u@ == spec_size_url(t@, size) && u@.len() > 0,
            None => spec_size_url(t@, size).len() == 0,
        },
{
    let u: &String = match size {
        Size::Small => &t.small,
        Size::Medium => &t.medium,
        Size::Large => &t.large,
    };
    if u.as_str().is_empty() {
        None
    } else {
        Some(u)
    }
}

/// The upstream path a request for `p` under the exposed root `home`
/// addresses: the root, a separator, and the request's own path.
pub fn join_request_path(home: &str, p: &str) -> (r: String)
    ensures
        r@ == home@ + "/"@ + p@,
{
    let mut out = concat_str(home, "/");
    out.append(p);
    out
}

/// Completes a download-URL miss with the upstream's outcome: a fetched
/// URL is cached under the item id and returned; a failure is returned
/// uncached.
pub fn settle_download_url(
    caches: &mut Caches,
    id: &String,
    fetched: Result<String, UpstreamError>,
    now: u64,
) -> (r: Result<String, WebError>)
    ensures
        ttls_unchanged(old(caches), final(caches)),
        match fetched {
            Ok(u) => {
                &&& r matches Ok(ru) && ru@ == u@
                &&& final(caches)@ == (CachesV {
                    download_url: old(caches)@.download_url.insert(id@, (u@, now)),
                    ..old(caches)@
                })
            },
            Err(e) => r == Err::<String, WebError>(WebError::Upstream(e)) && final(caches)@ == old(
                caches,
            )@,
        },
{
    match fetched {
        Ok(u) => {
            caches.download_url_cache.put(id.clone(), u.clone(), now);
            Ok(u)
        },
        Err(e) => Err(WebError::Upstream(e)),
    }
}

fn clone_children(v: &Vec<FileInfo>) -> (r: Vec<FileInfo>)
    ensures
        r.deep_view() == v.deep_view(),
{
    let mut out: Vec<FileInfo> = Vec::new();
    let mut i: usize = 0;
    while i < v.len()
        invariant
            i <= v.len(),
            out@.len() == i,
            forall|j: int| 0 <= j < i ==> out.deep_view()[j] == v.deep_view()[j],
        decreases v.len() - i,
    {
        out.push(v[i].clone());
        i += 1;
    }
    proof {
        assert(out.deep_view() =~= v.deep_view());
    }
    out
}

/// The cache contents after a listing of `dir` came back as `items`:
/// every item is normalized with its usual per-item population, and the
/// listing tier receives the normalized children under `dir`.
pub open spec fn spec_listing_caches(
    c: CachesV,
    items: Seq<crate::model::RawDriveItemV>,
    dir: Seq<char>,
    home: Seq<char>,
    now: u64,
) -> CachesV {
    let after = spec_caches_after_list(c, items, home, now);
    CachesV { list: after.list.insert(dir, (spec_normalize_list(items, home), now)), ..after }
}

/// Completes a listing miss for `dir` with the upstream's outcome: a
/// fetched listing is normalized -- items without an identifier are
/// dropped -- cached under `dir` and returned; a failure is returned
/// uncached.
pub fn settle_listing(
    caches: &mut Caches,
    dir: &String,
    fetched: Result<Vec<RawDriveItem>, UpstreamError>,
    home_path: &str,
    now: u64,
) -> (r: Result<Vec<FileInfo>, WebError>)
    ensures
        ttls_unchanged(old(caches), final(caches)),
        match fetched {
            Ok(items) => {
                &&& r matches Ok(children) && children.deep_view() == spec_normalize_list(
                    items.deep_view(),
                    home_path@,
                )
                &&& final(caches)@ == spec_listing_caches(
                    old(caches)@,
                    items.deep_view(),
                    dir@,
                    home_path@,
                    now,
                )
            },
            Err(e) => r == Err::<Vec<FileInfo>, WebError>(WebError::Upstream(e)) && final(caches)@
                == old(caches)@,
        },
{
    match fetched {
        Ok(items) => {
            let children = normalize_children(&items, caches, home_path, now);
            let copy = clone_children(&children);
            caches.list_cache.put(dir.clone(), copy, now);
            Ok(children)
        },
        Err(e) => Err(WebError::Upstream(e)),
    }
}

/// Completes a metadata miss with the upstream's outcome: a fetched item
/// is normalized with its usual cache population and returned; an absent
/// item, a failed normalization and a failed call are returned uncached.
pub fn settle_item(
    caches: &mut Caches,
    fetched: Result<Option<RawDriveItem>, UpstreamError>,
    home_path: &str,
    now: u64,
) -> (r: Result<FileInfo, WebError>)
    ensures
        ttls_unchanged(old(caches), final(caches)),
        match fetched {
            Ok(opt) => match opt {
                Some(item) => {
                    &&& final(caches)@ == spec_caches_after(old(caches)@, item@, home_path@, now)
                    &&& match spec_normalize(item@, home_path@) {
                        Some(fi) => r matches Ok(f) && f@ == fi,
                        None => r == Err::<FileInfo, WebError>(WebError::NormalizationFailed),
                    }
                },
                None => r == Err::<FileInfo, WebError>(WebError::ItemNotFound) && final(caches)@
                    == old(caches)@,
            },
            Err(e) => r == Err::<FileInfo, WebError>(WebError::Upstream(e)) && final(caches)@
                == old(caches)@,
        },
{
    match fetched {
        Ok(Some(item)) => match parse_item(&item, caches, home_path, now) {
            Ok(f) => Ok(f),
            Err(_) => Err(WebError::NormalizationFailed),
        },
        Ok(None) => Err(WebError::ItemNotFound),
        Err(e) => Err(WebError::Upstream(e)),
    }
}

/// Completes a thumbnail miss for item `id` with the upstream's outcome:
/// a fetched item with a parsable thumbnail list has the parsed set
/// cached under `id` and returned; an absent item, absent thumbnail
/// data, an unparsable list and a failed call are returned uncached.
pub fn settle_thumb(
    caches: &mut Caches,
    id: &String,
    fetched: Result<Option<RawDriveItem>, UpstreamError>,
    now: u64,
) -> (r: Result<Thumbnails, WebError>)
    ensures
        ttls_unchanged(old(caches), final(caches)),
        match fetched {
            Ok(opt) => match opt {
                Some(item) => match item@.thumbnails {
                    Some(sets) => match spec_parse_thumb(sets) {
                        Some(tv) => {
                            &&& r matches Ok(t) && t@ == tv
                            &&& final(caches)@ == (CachesV {
                                thumb: old(caches)@.thumb.insert(id@, (tv, now)),
                                ..old(caches)@
                            })
                        },
                        None => r == Err::<Thumbnails, WebError>(WebError::ThumbnailParseFailed)
                            && final(caches)@ == old(caches)@,
                    },
                    None => r == Err::<Thumbnails, WebError>(WebError::MissingThumbnails)
                        && final(caches)@ == old(caches)@,
                },
                None => r == Err::<Thumbnails, WebError>(WebError::ItemNotFound) && final(caches)@
                    == old(caches)@,
            },
            Err(e) => r == Err::<Thumbnails, WebError>(WebError::Upstream(e)) && final(caches)@
                == old(caches)@,
        },
{
    match fetched {
        Ok(Some(item)) => match &item.thumbnails {
            Some(sets) => match parse_thumb(sets) {
                Ok(t) => {
                    caches.thumb_cache.put(id.clone(), t.clone(), now);
                    Ok(t)
                },
                Err(_) => Err(WebError::ThumbnailParseFailed),
            },
            None => Err(WebError::MissingThumbnails),
        },
        Ok(None) => Err(WebError::ItemNotFound),
        Err(e) => Err(WebError::Upstream(e)),
    }
}

} // verus!
