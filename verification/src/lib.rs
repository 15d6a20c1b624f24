//! Feed synthesis for a creator catalogue: paged retrieval of a creator's
//! credited works, positional pairing of roles with works, completeness
//! filtering, title and date derivation, and stable ordering of the result.

pub mod clients;
pub mod date;
pub mod entry;
pub mod errors;
pub mod feed;
pub mod merge;
pub mod order;
pub mod pager;
pub mod records;
pub mod search;
pub mod text;
