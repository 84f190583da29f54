//! Construction of talent-search queries: visibility rules, facet filters,
//! exclusion lists, and the mapping of search hits back to talent IDs.

pub mod filter;
pub mod laws;
pub mod search_params;
pub mod talent;
pub mod terms;
