//! Thread-safe embedding of a single-threaded script engine.
//!
//! One worker thread owns the engine. Every other thread reaches it through a
//! queue of jobs and sees script values only as facades. This crate holds the
//! rules of that bridge: the order in which jobs run, when the worker collects
//! garbage, how values cross the thread boundary, how an import is resolved and
//! how a fetched body is assembled. Each rule is a function with a proved
//! contract; threads, clocks and the engine itself are the caller's part.

pub mod eserror;
pub mod esruntime;
pub mod esruntimebuilder;
pub mod esscript;
pub mod esvalue;
pub mod eventqueue;
pub mod fetch;
pub mod gc;
pub mod modules;
pub mod nametable;
pub mod promises;
pub mod quickjs_utils;
pub mod quickjscontext;
pub mod quickjsruntime;
pub mod reflection;
pub mod table;
