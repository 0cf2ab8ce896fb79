//! Federal Reserve speech feed decoding.
//!
//! The library decodes a JSON feed of Federal Reserve speeches: it parses
//! Eastern-time date strings and normalizes them to UTC instants, decodes
//! "yes"/"no" video flags, decodes the feed's two record shapes, filters
//! speeches by speaker, and rewrites relative links into absolute URLs.
//! Network I/O stays outside the library; callers hand it the feed body.

pub mod date;
pub mod errors;
pub mod feed;
pub mod json;
pub mod speech;
pub mod text;
pub mod video;

pub use date::{normalize_eastern_datetime, parse_date_parts, DateParts};
pub use errors::DecodeError;
pub use feed::{decode_elem, process_feed};
pub use json::{FeedElem, JsonScalar};
pub use speech::{absolute_link, FedSpeech, FilterOption, FED_ENTRYPOINT, JEROME_POWELL};
pub use video::decode_video_flag;
