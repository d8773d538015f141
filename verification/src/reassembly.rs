//! Putting data shreds back together: into data sets, into open prefixes and into whole slots.
pub mod dataset;
pub mod fragment;
pub mod index_set;
pub mod inline;
pub mod run;
pub mod slot;
