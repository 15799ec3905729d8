//! Internal file records and the structurally-typed upstream item shape.
//!
//! Upstream responses arrive as records of optional fields; every absent
//! field has an explicit default here. `FileInfo` is the normalized record
//! this crate derives from one upstream item.

use vstd::prelude::*;

verus! {

/// Kind of a normalized item.
#[derive(Clone, Copy, PartialEq, Eq, Structural, Debug)]
pub enum FileTypes {
    File,
    Folder,
    Video,
    Audio,
}

/// Thumbnail URLs for the three sizes; an absent size is the empty string.
#[derive(Debug)]
pub struct Thumbnails {
    pub small: String,
    pub medium: String,
    pub large: String,
}

/// Mathematical contents of a `Thumbnails` value.
pub ghost struct ThumbnailsV {
    pub small: Seq<char>,
    pub medium: Seq<char>,
    pub large: Seq<char>,
}

impl View for Thumbnails {
    type V = ThumbnailsV;

    open spec fn view(&self) -> ThumbnailsV {
        ThumbnailsV { small: self.small@, medium: self.medium@, large: self.large@ }
    }
}

impl DeepView for Thumbnails {
    type V = ThumbnailsV;

    open spec fn deep_view(&self) -> ThumbnailsV {
        self.view()
    }
}

impl Clone for Thumbnails {
    fn clone(&self) -> (r: Self)
        ensures
            r@ == self@,
    {
        Thumbnails {
            small: self.small.clone(),
            medium: self.medium.clone(),
            large: self.large.clone(),
        }
    }
}

/// The normalized record for one upstream item.
#[derive(Debug)]
pub struct FileInfo {
    pub id: String,
    pub name: String,
    pub size: i64,
    pub last_modified_date_time: i64,
    pub created_date_time: i64,
    pub full_path: String,
    pub file_type: FileTypes,
}

/// Mathematical contents of a `FileInfo` value.
pub ghost struct FileInfoV {
    pub id: Seq<char>,
    pub name: Seq<char>,
    pub size: i64,
    pub last_modified_date_time: i64,
    pub created_date_time: i64,
    pub full_path: Seq<char>,
    pub file_type: FileTypes,
}

impl View for FileInfo {
    type V = FileInfoV;

    open spec fn view(&self) -> FileInfoV {
        FileInfoV {
            id: self.id@,
            name: self.name@,
            size: self.size,
            last_modified_date_time: self.last_modified_date_time,
            created_date_time: self.created_date_time,
            full_path: self.full_path@,
            file_type: self.file_type,
        }
    }
}

impl DeepView for FileInfo {
    type V = FileInfoV;

    open spec fn deep_view(&self) -> FileInfoV {
        self.view()
    }
}

impl Clone for FileInfo {
    fn clone(&self) -> (r: Self)
        ensures
            r@ == self@,
    {
        FileInfo {
            id: self.id.clone(),
            name: self.name.clone(),
            size: self.size,
            last_modified_date_time: self.last_modified_date_time,
            created_date_time: self.created_date_time,
            full_path: self.full_path.clone(),
            file_type: self.file_type,
        }
    }
}

/// One size-variant record of the upstream thumbnail list; each URL may be
/// absent.
#[derive(Debug)]
pub struct RawThumbnailSet {
    pub small_url: Option<String>,
    pub medium_url: Option<String>,
    pub large_url: Option<String>,
}

/// Mathematical contents of a `RawThumbnailSet`.
pub ghost struct RawThumbnailSetV {
    pub small_url: Option<Seq<char>>,
    pub medium_url: Option<Seq<char>>,
    pub large_url: Option<Seq<char>>,
}

impl View for RawThumbnailSet {
    type V = RawThumbnailSetV;

    open spec fn view(&self) -> RawThumbnailSetV {
        RawThumbnailSetV {
            small_url: match self.small_url {
                Some(ref s) => Some(s@),
                None => None,
            },
            medium_url: match self.medium_url {
                Some(ref s) => Some(s@),
                None => None,
            },
            large_url: match self.large_url {
                Some(ref s) => Some(s@),
                None => None,
            },
        }
    }
}

impl DeepView for RawThumbnailSet {
    type V = RawThumbnailSetV;

    open spec fn deep_view(&self) -> RawThumbnailSetV {
        self.view()
    }
}

/// The fields of one upstream drive item that normalization reads, as
/// plain optional values.
#[derive(Debug)]
pub struct RawDriveItem {
    pub id: Option<String>,
    pub name: Option<String>,
    pub size: Option<i64>,
    pub created_date_time: Option<String>,
    pub last_modified_date_time: Option<String>,
    pub download_url: Option<String>,
    pub parent_path: Option<String>,
    pub mime_type: Option<String>,
    pub thumbnails: Option<Vec<RawThumbnailSet>>,
}

/// Mathematical contents of a `RawDriveItem`.
pub ghost struct RawDriveItemV {
    pub id: Option<Seq<char>>,
    pub name: Option<Seq<char>>,
    pub size: Option<i64>,
    pub created_date_time: Option<Seq<char>>,
    pub last_modified_date_time: Option<Seq<char>>,
    pub download_url: Option<Seq<char>>,
    pub parent_path: Option<Seq<char>>,
    pub mime_type: Option<Seq<char>>,
    pub thumbnails: Option<Seq<RawThumbnailSetV>>,
}

impl View for RawDriveItem {
    type V = RawDriveItemV;

    open spec fn view(&self) -> RawDriveItemV {
        RawDriveItemV {
            id: match self.id {
                Some(ref s) => Some(s@),
                None => None,
            },
            name: match self.name {
                Some(ref s) => Some(s@),
                None => None,
            },
            size: self.size,
            created_date_time: match self.created_date_time {
                Some(ref s) => Some(s@),
                None => None,
            },
            last_modified_date_time: match self.last_modified_date_time {
                Some(ref s) => Some(s@),
                None => None,
            },
            download_url: match self.download_url {
                Some(ref s) => Some(s@),
                None => None,
            },
            parent_path: match self.parent_path {
                Some(ref s) => Some(s@),
                None => None,
            },
            mime_type: match self.mime_type {
                Some(ref s) => Some(s@),
                None => None,
            },
            thumbnails: match self.thumbnails {
                Some(ref v) => Some(v.deep_view()),
                None => None,
            },
        }
    }
}

impl DeepView for RawDriveItem {
    type V = RawDriveItemV;

    open spec fn deep_view(&self) -> RawDriveItemV {
        self.view()
    }
}

} // verus!
