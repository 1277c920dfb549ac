//! A minimal embedded key-value store: get/set/delete over string keys and
//! values, an in-memory mapping as the working copy of truth, and a pluggable
//! persistence strategy whose reference codec is a flat JSON object.

mod backend;
mod codec;
mod database;
mod mem;
mod resource;
mod storage;
mod store;

pub use backend::JSONBackend;
pub use codec::json_bytes_of;
pub use codec::json_map_of;
pub use codec::lemma_serialization_deterministic;
pub use database::open;
pub use database::Database;
pub use mem::MemStorage;
pub use resource::MemResource;
pub use resource::Resource;
pub use storage::lemma_del_absent;
pub use storage::lemma_set_then_del;
pub use storage::lemma_set_then_get;
pub use storage::Storage;
pub use storage::StoreError;
pub use store::JSONStorage;
