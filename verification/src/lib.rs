//! A verified font-metadata cache.
//!
//! The library discovers font records from directory listings, derives
//! display metadata (name, family, style) from file names, memoizes the
//! result, and serves full, counted, and paginated reads.

pub mod cache;
pub mod catalog;
pub mod font;
pub mod laws;
pub mod parser;

pub use cache::DirEntry;
pub use cache::DirectoryListing;
pub use cache::FontCache;
pub use font::FontInfo;
pub use font::FontInfoView;
