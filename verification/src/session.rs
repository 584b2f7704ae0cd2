//! The interactive selection session: paging through a catalog, resolving a
//! target, and the controller that ties the two to a stream of events.

pub mod controller;
pub mod event;
pub mod laws;
pub mod pager;
pub mod target;
