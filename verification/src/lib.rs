//! A bridge between a host and native plugin modules.
//!
//! A module is a shared library that exports five entry points: info, open,
//! close, set and get. This crate holds the bridge's rules: which paths name a
//! module, when a symbol table is complete, how host strings are marshaled
//! into a call and how a module's reply is read. It performs no foreign call
//! itself: each operation yields the call to make, and the caller hands back
//! what the module returned.

pub mod error;
pub mod marshal;
pub mod json;
pub mod schema;
pub mod library;
pub mod loader;

pub use error::{Argument, BridgeError, EntryPoint, Field, SchemaFault};
pub use library::{CloseCall, GetCall, InfoCall, InfoPayload, Library, OpenCall, Session, SetCall};
pub use loader::{Binding, Loader, Resolver};
pub use schema::ModuleInfo;
