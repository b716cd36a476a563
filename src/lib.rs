//! Detection of GBK-encoded Chinese text and its conversion to UTF-8.
//!
//! The byte classifiers (`gbk_pairs`, `unicode`) are pure functions over byte
//! buffers; `detector` turns their signals into a verdict under the settings of
//! `config`, `conversion` re-encodes GBK content as UTF-8, `policy` decides what
//! happens to one file, and `selection` says which files a walk visits.

pub mod config;
pub mod conversion;
pub mod detector;
pub mod gbk_pairs;
pub mod policy;
pub mod selection;
pub mod unicode;
