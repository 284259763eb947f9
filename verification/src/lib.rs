//! Repository search, scoring and GitHub request logic with verified contracts.

use vstd::prelude::*;

pub mod search_users;
pub mod text;
pub mod ratio;
pub mod code_quality;
pub mod test_metrics;
pub mod pattern;
pub mod readme;
pub mod readme_score;
pub mod security;
pub mod ci_cd;
pub mod documentation;
pub mod structure;
pub mod dependencies;
pub mod freshness;
pub mod dependency_metrics;
pub mod activity;
pub mod scoring;
pub mod results;
pub mod cache;
pub mod search;
pub mod rate_limiter;
pub mod release_assets;
pub mod files;
pub mod analysis;

verus! {
} // verus!
