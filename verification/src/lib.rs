//! A polymorphic seekable byte-stream abstraction.
//!
//! One handle type, [`RWops`], gives uniform read/write/seek/size/close
//! access to several kinds of byte stream: a read-only view over
//! caller-supplied memory, and any caller-supplied backend that satisfies
//! the [`Backend`] capability contract (a growable in-memory backend,
//! [`MemBackend`], is provided).  File-backed streams are supplied by the
//! embedding application as a custom backend; the mode strings they are
//! opened with are parsed and validated here, by [`parse_mode`].

pub mod backend;
pub mod errors;
pub mod mem_backend;
pub mod mode;
pub mod model;
pub mod rwops;
pub mod seek;

pub use backend::Backend;
pub use backend::EmptyBackend;
pub use errors::StreamError;
pub use mem_backend::MemBackend;
pub use mode::FileMode;
pub use mode::parse_mode;
pub use rwops::RWops;
pub use seek::SeekOrigin;
