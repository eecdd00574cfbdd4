//! Query-string options for requests to the Songkick event-listing API.
//!
//! [`options`] holds the builders for filters, paging and sort order and the
//! function that appends them to a request URL; [`util`] holds the text
//! encodings that the query string is made of.

pub mod options;
pub mod util;
