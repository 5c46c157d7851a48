//! Turns a list of URLs into one descriptive line each: video pages get a
//! channel/date/title line from a metadata lookup, every other page (and every
//! video page whose lookup fails) gets its HTML title.

pub mod text;
pub mod video;
pub mod label;
pub mod selector;
pub mod schedule;
pub mod input;
pub mod replay;
