//! Where the tracks of a play request come from.

pub mod youtube;

use vstd::prelude::*;

verus! {

/// Chooses the source that serves a query; YouTube serves all of them.
pub struct SourceFactory;

/// Why a track could not be fetched.
#[derive(Debug, Clone, Copy, PartialEq, Eq, Structural)]
pub enum SourceError {
    Other,
}

/// What a track shows when it is announced.
#[derive(Clone)]
pub struct Metadata {
    pub title: String,
    pub url: String,
    pub thumbnail: String,
}

impl Metadata {
    pub fn new(title: String, url: String, thumbnail: String) -> (r: Metadata)
        ensures
            r.title == title,
            r.url == url,
            r.thumbnail == thumbnail,
    {
        Metadata { title, url, thumbnail }
    }
}

} // verus!
