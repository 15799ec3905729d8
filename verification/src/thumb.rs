//! Parsing of the upstream thumbnail list into a `Thumbnails` value.
//!
//! The upstream representation is a list of size-variant records. The
//! first record is required; within it every absent size URL defaults to
//! the empty string rather than failing.

use vstd::prelude::*;

use crate::model::{RawThumbnailSet, RawThumbnailSetV, Thumbnails, ThumbnailsV};

verus! {

#[derive(Clone, Copy, PartialEq, Eq, Structural, Debug)]
pub enum Error {
    /// The thumbnail list has no first element to read sizes from.
    ParseError,
}

/// An optional URL, with absence read as the empty string.
pub open spec fn url_or_empty(u: Option<Seq<char>>) -> Seq<char> {
    match u {
        Some(s) => s,
        None => Seq::<char>::empty(),
    }
}

/// What parsing a thumbnail list yields: the three URLs of the first
/// size-variant record, each empty when absent; nothing when the list is
/// empty.
pub open spec fn spec_parse_thumb(sets: Seq<RawThumbnailSetV>) -> Option<ThumbnailsV> {
    if sets.len() == 0 {
        None
    } else {
        Some(
            ThumbnailsV {
                small: url_or_empty(sets[0].small_url),
                medium: url_or_empty(sets[0].medium_url),
                large: url_or_empty(sets[0].large_url),
            },
        )
    }
}

fn owned_url_or_empty(u: &Option<String>) -> (r: String)
    ensures
        r@ == url_or_empty(
            match u {
                Some(s) => Some(s@),
                None => None,
            },
        ),
{
    match u {
        Some(s) => s.clone(),
        None => String::new(),
    }
}

/// Extracts the thumbnail URLs from the first size-variant record of
/// `sets`. Fails if and only if the list is empty; a missing size within
/// the first record becomes the empty string, not an error.
pub fn parse_thumb(sets: &Vec<RawThumbnailSet>) -> (r: Result<Thumbnails, Error>)
    ensures
        match r {
            Ok(t) => spec_parse_thumb(sets.deep_view()) == Some(t@),
            Err(e) => {
                &&& e == Error::ParseError
                &&& spec_parse_thumb(sets.deep_view()) is None
                &&& sets@.len() == 0
            },
        },
{
    if sets.len() == 0 {
        return Err(Error::ParseError);
    }
    let first = &sets[0];
    assert(sets.deep_view()[0] == sets@[0].deep_view());
    Ok(
        Thumbnails {
            small: owned_url_or_empty(&first.small_url),
            medium: owned_url_or_empty(&first.medium_url),
            large: owned_url_or_empty(&first.large_url),
        },
    )
}

} // verus!
