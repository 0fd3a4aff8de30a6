//! Asynchronous key-value storage: the verified core.
//!
//! The storage engine and the threads that run tasks live outside this
//! library. What stands here decides: which requests are accepted, what each
//! database's serial queue hands out next, how an engine outcome becomes the
//! result a caller sees, and how a range scan becomes an enumerator.

pub mod error;
pub mod value;
pub mod enumerator;
pub mod dispatch;
pub mod task;
pub mod database;
pub mod service;
