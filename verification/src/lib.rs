//! Archive a daily comic strip and publish a syndication feed for it.
//!
//! The library holds the verified core of the pipeline: parsing the strip's
//! page into a typed record, deriving object-store keys and URLs, resolving
//! per-day titles from stored metadata, and assembling the feed document.
//! Network and object-store transport live outside, handing the library plain
//! values.

pub mod archive;
pub mod date;
pub mod error;
pub mod extract;
pub mod feed;
pub mod http;
pub mod text;

pub use archive::UploadPlan;
pub use date::Date;
pub use error::{Field, FeedError};
pub use extract::{Comic, Dilbert};
pub use feed::{Feed, FeedEntry, TitleLookup};
