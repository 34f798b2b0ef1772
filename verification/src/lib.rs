//! Core of a falling-arrow rhythm game: extraction of a note chart from a
//! compressed multimedia container, an interval-indexed chart representation,
//! and a clocked playback/judgement engine with strict timing windows.

pub mod types;
pub mod config;
pub mod note;
pub mod chart;
pub mod index;
pub mod judge;
pub mod record;
pub mod turntable;
pub mod play;
pub mod bytecode;
pub mod container;
pub mod press;
pub mod playlist;
pub mod manifest;
pub mod bench;
pub mod tui;
