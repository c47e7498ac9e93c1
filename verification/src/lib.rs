//! Chain-data ingestion core: plans a block range into per-dataset
//! sub-ranges, drives each sub-range's retrying fetch session, groups the
//! fetched records into size-bounded batches, and extracts typed columns from
//! them under a per-dataset field schema. Everything here is verified; the
//! network, the channels and the on-disk sink live in the program around it.

pub mod config;
pub mod extract;
pub mod fetcher;
pub mod fields;
pub mod json;
pub mod progress;
pub mod summaries;
pub mod utils;
