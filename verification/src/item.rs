//! Normalization of one upstream item into a `FileInfo`, populating the
//! cache tiers as a side effect.

use vstd::prelude::*;
use vstd::string::*;

use crate::cache::{Caches, CachesV};
use crate::model::{FileInfo, FileInfoV, FileTypes, RawDriveItem, RawDriveItemV};
use crate::strutil::{concat_str, is_prefix_of, spec_strip_prefix, str_starts_with, strip_prefix_once};
use crate::thumb;
use crate::thumb::url_or_empty;

verus! {

#[derive(Clone, Copy, PartialEq, Eq, Structural, Debug)]
pub enum Error {
    /// The raw item has no identifier, so it can be neither cached nor
    /// addressed.
    MissingId,
}

/// The number of non-leap seconds since the Unix epoch denoted by an
/// RFC 3339 date-and-time string, or nothing when the string is not one.
pub uninterp spec fn rfc3339_secs(s: Seq<char>) -> Option<i64>;

/// Relies on chrono's `DateTime::parse_from_rfc3339` and
/// `DateTime::timestamp`: both are functions of the string alone, parsing
/// an RFC 3339 date-and-time and counting its non-leap seconds since the
/// Unix epoch.
#[verifier::external_body]
fn parse_rfc3339_secs(s: &str) -> (r: Option<i64>)
    ensures
        r == rfc3339_secs(s@),
{
    match chrono::DateTime::parse_from_rfc3339(s) {
        Ok(d) => Some(d.timestamp()),
        Err(_) => None,
    }
}

/// The timestamp of an optional date-and-time string: its RFC 3339
/// reading, or zero when it is absent or malformed.
pub open spec fn spec_timestamp(d: Option<Seq<char>>) -> i64 {
    match d {
        Some(s) => match rfc3339_secs(s) {
            Some(t) => t,
            None => 0,
        },
        None => 0,
    }
}

pub fn date_time_to_timestamp(date_time: &Option<String>) -> (r: i64)
    ensures
        r == spec_timestamp(
            match date_time {
                Some(s) => Some(s@),
                None => None,
            },
        ),
{
    match date_time {
        Some(s) => match parse_rfc3339_secs(s.as_str()) {
            Some(t) => t,
            None => 0,
        },
        None => 0,
    }
}

/// The upstream-reported parent path made relative to the exposed root:
/// the upstream drive-root marker is stripped once if present, then the
/// configured virtual-root prefix is stripped once if present; a path
/// that starts with neither is left unchanged.
pub open spec fn spec_rel_path(parent: Option<Seq<char>>, home: Seq<char>) -> Seq<char> {
    spec_strip_prefix(spec_strip_prefix(url_or_empty(parent), "/drive/root:"@), home)
}

/// The full path of a normalized item: its relative parent path, a
/// separator, and its name.
pub open spec fn spec_full_path(
    parent: Option<Seq<char>>,
    home: Seq<char>,
    name: Seq<char>,
) -> Seq<char> {
    spec_rel_path(parent, home) + "/"@ + name
}

/// The kind derived from the file-type metadata: a `video`/`audio` MIME
/// prefix wins, absence of a direct-download URL means a folder, and
/// anything else is a plain file.
pub open spec fn spec_kind(mime: Option<Seq<char>>, download_url: Option<Seq<char>>) -> FileTypes {
    if is_prefix_of("video"@, url_or_empty(mime)) {
        FileTypes::Video
    } else if is_prefix_of("audio"@, url_or_empty(mime)) {
        FileTypes::Audio
    } else if url_or_empty(download_url).len() == 0 {
        FileTypes::Folder
    } else {
        FileTypes::File
    }
}

/// The record that normalizing `item` against the virtual root `home`
/// yields, or nothing when the item has no identifier.
pub open spec fn spec_normalize(item: RawDriveItemV, home: Seq<char>) -> Option<FileInfoV> {
    match item.id {
        None => None,
        Some(id) => Some(
            FileInfoV {
                id,
                name: url_or_empty(item.name),
                size: match item.size {
                    Some(s) => s,
                    None => 0,
                },
                last_modified_date_time: spec_timestamp(item.last_modified_date_time),
                created_date_time: spec_timestamp(item.created_date_time),
                full_path: spec_full_path(item.parent_path, home, url_or_empty(item.name)),
                file_type: spec_kind(item.mime_type, item.download_url),
            },
        ),
    }
}

/// The cache contents after normalizing `item` at time `now`: on success,
/// a parsable thumbnail list fills the thumbnail tier, a non-empty
/// download URL fills the download-URL tier, and the record always fills
/// the metadata tier, each keyed by the item id; a failed normalization
/// leaves every tier untouched.
pub open spec fn spec_caches_after(
    c: CachesV,
    item: RawDriveItemV,
    home: Seq<char>,
    now: u64,
) -> CachesV {
    match spec_normalize(item, home) {
        None => c,
        Some(fi) => {
            let c1 = match item.thumbnails {
                Some(sets) => match thumb::spec_parse_thumb(sets) {
                    Some(t) => CachesV { thumb: c.thumb.insert(fi.id, (t, now)), ..c },
                    None => c,
                },
                None => c,
            };
            let c2 = if url_or_empty(item.download_url).len() > 0 {
                CachesV {
                    download_url: c1.download_url.insert(
                        fi.id,
                        (url_or_empty(item.download_url), now),
                    ),
                    ..c1
                }
            } else {
                c1
            };
            CachesV { file: c2.file.insert(fi.id, (fi, now)), ..c2 }
        },
    }
}

/// The time-to-live of every tier is the same before and after.
pub open spec fn ttls_unchanged(before: &Caches, after: &Caches) -> bool {
    &&& after.download_url_cache.spec_ttl() == before.download_url_cache.spec_ttl()
    &&& after.list_cache.spec_ttl() == before.list_cache.spec_ttl()
    &&& after.thumb_cache.spec_ttl() == before.thumb_cache.spec_ttl()
    &&& after.file_cache.spec_ttl() == before.file_cache.spec_ttl()
}

fn owned_or_empty(u: &Option<String>) -> (r: String)
    ensures
        r@ == url_or_empty(
            match u {
                Some(s) => Some(s@),
                None => None,
            },
        ),
{
    match u {
        Some(s) => s.clone(),
        None => String::new(),
    }
}

/// Converts one upstream item into its normalized record and populates
/// the thumbnail, download-URL and metadata tiers with what the item
/// carries. Fails if and only if the item has no identifier, leaving the
/// caches untouched.
pub fn parse_item(item: &RawDriveItem, caches: &mut Caches, home_path: &str, now: u64) -> (r:
    Result<FileInfo, Error>)
    ensures
        match r {
            Ok(fi) => spec_normalize(item@, home_path@) == Some(fi@),
            Err(e) => {
                &&& e == Error::MissingId
                &&& spec_normalize(item@, home_path@) is None
                &&& item@.id is None
            },
        },
        final(caches)@ == spec_caches_after(old(caches)@, item@, home_path@, now),
        ttls_unchanged(old(caches), final(caches)),
{
    let id: String = match &item.id {
        Some(s) => s.clone(),
        None => { return Err(Error::MissingId) },
    };
    let name = owned_or_empty(&item.name);
    let size: i64 = match item.size {
        Some(s) => s,
        None => 0,
    };
    let last_modified_date_time = date_time_to_timestamp(&item.last_modified_date_time);
    let created_date_time = date_time_to_timestamp(&item.created_date_time);
    let download_url = owned_or_empty(&item.download_url);

    let parent = owned_or_empty(&item.parent_path);
    let path = strip_prefix_once(parent.as_str(), "/drive/root:");
    let path = strip_prefix_once(path.as_str(), home_path);
    let mut full_path = concat_str(path.as_str(), "/");
    full_path.append(name.as_str());

    let file_type: FileTypes = if str_starts_with(mime_of(item), "video") {
        FileTypes::Video
    } else if str_starts_with(mime_of(item), "audio") {
        FileTypes::Audio
    } else if download_url.unicode_len() == 0 {
        FileTypes::Folder
    } else {
        FileTypes::File
    };

    // Cache the thumbnails if the item carries a parsable list
    match &item.thumbnails {
        Some(sets) => match thumb::parse_thumb(sets) {
            Ok(t) => caches.thumb_cache.put(id.clone(), t, now),
            Err(_) => {},
        },
        None => {},
    }

    // Cache the download URL if the item carries one
    if download_url.unicode_len() > 0 {
        caches.download_url_cache.put(id.clone(), download_url, now);
    }

    let file_info = FileInfo {
        id: id.clone(),
        name,
        size,
        last_modified_date_time,
        created_date_time,
        full_path,
        file_type,
    };

    caches.file_cache.put(id, file_info.clone(), now);

    Ok(file_info)
}

fn mime_of<'a>(item: &'a RawDriveItem) -> (r: &'a str)
    ensures
        r@ == url_or_empty(item@.mime_type),
{
    match &item.mime_type {
        Some(s) => s.as_str(),
        None => {
            let empty = "";
            proof {
                reveal_strlit("");
            }
            assert(empty@ =~= Seq::<char>::empty());
            empty
        },
    }
}

/// The records of the items of `items` that normalize successfully, in
/// order; an item without an identifier is dropped rather than failing
/// the whole listing.
pub open spec fn spec_normalize_list(items: Seq<RawDriveItemV>, home: Seq<char>) -> Seq<FileInfoV>
    decreases items.len(),
{
    if items.len() == 0 {
        Seq::<FileInfoV>::empty()
    } else {
        spec_normalize_list(items.drop_last(), home) + match spec_normalize(items.last(), home) {
            Some(fi) => seq![fi],
            None => Seq::<FileInfoV>::empty(),
        }
    }
}

/// The cache contents after normalizing every item of `items` in order.
pub open spec fn spec_caches_after_list(
    c: CachesV,
    items: Seq<RawDriveItemV>,
    home: Seq<char>,
    now: u64,
) -> CachesV
    decreases items.len(),
{
    if items.len() == 0 {
        c
    } else {
        spec_caches_after(
            spec_caches_after_list(c, items.drop_last(), home, now),
            items.last(),
            home,
            now,
        )
    }
}

/// Normalizes a whole upstream listing, dropping the items that fail
/// (those without an identifier) and keeping the order of the rest, with
/// the same cache population per item as `parse_item`.
pub fn normalize_children(
    items: &Vec<RawDriveItem>,
    caches: &mut Caches,
    home_path: &str,
    now: u64,
) -> (r: Vec<FileInfo>)
    ensures
        r.deep_view() == spec_normalize_list(items.deep_view(), home_path@),
        final(caches)@ == spec_caches_after_list(old(caches)@, items.deep_view(), home_path@, now),
        ttls_unchanged(old(caches), final(caches)),
{
    let ghost all = items.deep_view();
    let mut out: Vec<FileInfo> = Vec::new();
    let mut i: usize = 0;
    while i < items.len()
        invariant
            i <= items.len(),
            all == items.deep_view(),
            all.len() == items@.len(),
            out.deep_view() == spec_normalize_list(all.take(i as int), home_path@),
            caches@ == spec_caches_after_list(old(caches)@, all.take(i as int), home_path@, now),
            ttls_unchanged(old(caches), caches),
        decreases items.len() - i,
    {
        proof {
            assert(all.take(i + 1).drop_last() =~= all.take(i as int));
            assert(all.take(i + 1).last() == items@[i as int].deep_view());
        }
        let ghost out_before = out.deep_view();
        match parse_item(&items[i], caches, home_path, now) {
            Ok(fi) => {
                out.push(fi);
                proof {
                    assert(out.deep_view() =~= out_before + seq![
                        spec_normalize(items@[i as int].deep_view(), home_path@)->0,
                    ]);
                }
            },
            Err(_) => {
                proof {
                    assert(out.deep_view() =~= out_before + Seq::<FileInfoV>::empty());
                }
            },
        }
        i += 1;
    }
    proof {
        assert(all.take(items@.len() as int) =~= all);
    }
    out
}

/// Law: normalization is a function of the raw item and the configured
/// root alone, so two records normalized from the same item are
/// field-for-field equal.
pub proof fn lemma_normalize_deterministic(
    item: RawDriveItemV,
    home: Seq<char>,
    fi1: FileInfoV,
    fi2: FileInfoV,
)
    requires
        spec_normalize(item, home) == Some(fi1),
        spec_normalize(item, home) == Some(fi2),
    ensures
        fi1 == fi2,
{
}

/// Law: normalizing the same raw item a second time at the same instant
/// leaves the caches exactly as the first normalization did -- no
/// duplicated and no diverging entries.
pub proof fn lemma_normalize_idempotent(c: CachesV, item: RawDriveItemV, home: Seq<char>, now: u64)
    ensures
        spec_caches_after(spec_caches_after(c, item, home, now), item, home, now)
            == spec_caches_after(c, item, home, now),
{
    let once = spec_caches_after(c, item, home, now);
    let twice = spec_caches_after(once, item, home, now);
    assert(twice.download_url =~= once.download_url);
    assert(twice.list =~= once.list);
    assert(twice.thumb =~= once.thumb);
    assert(twice.file =~= once.file);
}

} // verus!
