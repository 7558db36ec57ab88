//! The safe side of an embedding of the Luau virtual machine.
//!
//! A program that embeds a garbage-collected VM has to keep the VM's books
//! right: tags must match payloads, a stack must not be pushed beyond its
//! frame, every value that is handed out must be anchored where the
//! collector looks, every push must be undone on every path, and a status
//! code must become the right error with the right message. This crate keeps
//! those books in plain data and states, in contracts that Verus checks,
//! what each operation does to them.
//!
//! The VM itself is "the host" throughout. Whatever only the host can do
//! (compile source, load bytecode, run a function, allocate an object, make
//! a thread) is done by the embedder, who hands the crate what the host
//! reported: a status, an output, a raised value. Every operation here is
//! verified for all such reports.
//!
//! Numbers are carried as the bits of their floats and addresses as plain
//! integers; the crate never follows an address.

pub mod ast;
pub mod compiler;
pub mod fvalue;
pub mod native;
pub mod text;
pub mod vm;
