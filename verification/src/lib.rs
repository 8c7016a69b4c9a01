//! NTFS junction points, decided in verified code.
//!
//! A junction is a directory that carries a mount-point reparse record. This
//! library owns everything about junctions that can be decided without
//! touching a disk: the non-parsed path form (`path`), the binary reparse
//! record (`codec`), the meaning of host error codes (`error`), and the
//! order of the host calls that make up each of the four operations (`ops`,
//! over the vocabulary of `protocol`). The calls themselves are made by the
//! embedding program, which hands each outcome back to the operation. The
//! module `model` states what the operations achieve against a host that
//! behaves as a file system should.

pub mod error;
pub mod path;
pub mod codec;
pub mod protocol;
pub mod ops;
pub mod model;

pub use error::JunctionError;
pub use ops::create;
pub use ops::delete;
pub use ops::get_target;
pub use ops::junction_exists;
