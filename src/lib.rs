//! Operation and block data model of a layer-2 rollup node: the operation
//! taxonomy, the correlation of layer-1 priority operations, the envelope that
//! records an execution outcome, the block assembler, and the storage rows
//! that executed operations are persisted as.

pub mod primitives;
pub mod encoding;
pub mod hashing;
pub mod operations;
pub mod priority;
pub mod executed;
pub mod block;
pub mod storage;
