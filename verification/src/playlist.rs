//! Playlist entries as served by the song catalogue.

use vstd::prelude::*;

verus! {

/// One song of the catalogue, as the playlist lists it.
#[derive(Clone, PartialEq, Eq, Debug)]
pub struct Song {
    pub level: i64,
    pub genre: i64,
    pub name: String,
    pub author: String,
    pub author_url: String,
    pub stepauthor: String,
    pub difficulty: i64,
    pub style: String,
    pub time: String,
    pub order: i64,
    pub note_count: i64,
    pub nps_min: i64,
    pub nps_max: i64,
    pub data_nps: String,
    pub hash_load: String,
    pub swf_end_delay: i64,
}

/// One entry of a song's density graph: a count, or a marker string.
#[derive(Clone, PartialEq, Eq, Debug)]
pub enum Density {
    Integer(i64),
    String(String),
}

/// Marker for song catalogues.
pub trait Playlist {}

} // verus!
