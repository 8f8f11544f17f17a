//! Image-quality and curation service core: catalog records, the file-lookup
//! caches, the refresh coordinator, artifact cache keys and the sequence
//! quality rules.
pub mod api;
pub mod cache_keys;
pub mod config;
pub mod coordinator;
pub mod directory_tree;
pub mod file_cache;
pub mod models;
pub mod paths;
pub mod pregeneration;
pub mod refresh;
pub mod sequence;
pub mod static_files;
pub mod text;
