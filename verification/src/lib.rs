//! Operation selection for a consensus client's block producer: a greedy,
//! provably bounded approximation of the maximum-coverage problem over a pool
//! of candidate operations, a merge of two ranked solutions, and the
//! value-level preset constants that surround it.

pub mod max_cover;
pub mod element_set;
pub mod preset;
