use vstd::prelude::*;

pub mod batch;
pub mod classifier;
pub mod config;
pub mod enrich;
pub mod extractor;
pub mod markup;
pub mod records;
pub mod scheduler;
pub mod stages;
pub mod task;
pub mod text;
pub mod urls;

verus! {

} // verus!
