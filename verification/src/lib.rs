//! A lightweight actor kernel: one owner of private state that serves
//! serialized requests from many callers through a mailbox.

pub mod actor;
pub mod actor_loop;
pub mod error;
pub mod event;
pub mod handle;
pub mod intercept;
pub mod laws;
pub mod plan;
pub mod reply;
pub mod select;
