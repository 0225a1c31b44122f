//! Core of a unified storage-access layer: capability negotiation,
//! backend builder and lifecycle, a pooled buffer allocator, and the
//! operation drivers (reader, writer, lister, deleter) that present one
//! consistent contract over a backend's native primitives.

pub mod backend;
pub mod capability;
pub mod deleter;
pub mod error;
pub mod lister;
pub mod metadata;
pub mod paths;
pub mod pool;
pub mod reader;
pub mod store;
pub mod writer;

pub use backend::{AccessorInfo, FoyerBuilder, FoyerConfig, FsBackend, FsCore, Scheme};
pub use capability::Capability;
pub use deleter::Deleter;
pub use error::ErrorKind;
pub use lister::Lister;
pub use metadata::{EntryMode, Metadata};
pub use pool::BufferPool;
pub use reader::{Reader, ReaderState, SeekFrom};
pub use store::RawStore;
pub use writer::{WriteOptions, Writer, WriterState};
