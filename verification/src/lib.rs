//! Code generation for delegating asynchronous reads and writes of a struct
//! to one of its fields.
//!
//! A struct is described by a [`descriptor::StructDescriptor`]. For each of the
//! two capabilities, reading and writing, [`parse::parse_derive_input`] picks
//! the one field that the generated implementation forwards to, and
//! [`async_read::expand_async_read`] and [`async_write::expand_async_write`]
//! write out the implementation of `tokio::io::AsyncRead` and of
//! `tokio::io::AsyncWrite` as source text. [`guarantees`] states what holds of
//! every struct that they are given.
//!
//! A derive macro has the struct as a syntax tree of `syn`: [`syntax`] reads
//! the description from such a tree, and [`derive_async_read`] and
//! [`derive_async_write`] generate from the tree itself.

pub mod async_read;
pub mod async_write;
pub mod descriptor;
pub mod guarantees;
pub mod parse;
pub mod syntax;
pub mod text;

pub use syntax::{derive_async_read, derive_async_write};
