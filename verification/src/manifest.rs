//! The catalogue manifest payload: artists and charts as the song server
//! lists them.

use vstd::prelude::*;

verus! {

/// One artist of the catalogue.
#[derive(Clone, PartialEq, Eq, Debug)]
pub struct Artist {
    pub id: i32,
    pub name: String,
    pub url: String,
    pub userid: i32,
}

/// One chart of the catalogue.
#[derive(Clone, PartialEq, Eq, Debug)]
pub struct Chart {
    pub arrows: i32,
    pub artist: i32,
    pub author: i32,
    pub difficulty: i32,
    pub genre: i32,
    pub level: i32,
    pub name: String,
    pub releasedate: String,
    pub style: String,
    pub time: String,
}

/// The manifest payload: every artist and every chart of the catalogue.
#[derive(Clone, PartialEq, Eq, Debug)]
pub struct ManifestPayload {
    pub artists: Vec<Artist>,
    pub charts: Vec<Chart>,
}

} // verus!
