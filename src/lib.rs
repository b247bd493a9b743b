//! Registration form logic: a server handler, the action that invokes it,
//! the error resource derived from the action's latest outcome, and the text
//! that the page shows for it.

pub mod handler;
pub mod user;
pub mod invoker;
pub mod resource;
pub mod page;
