//! Capability routing and hook dispatch for a component-based runtime,
//! together with the concrete subsystems that exercise it: a work-scheduling
//! capability adapter, an isolated-storage path resolver and allocator, a
//! story graph used by a session manager, and a byte-level packet codec.

pub mod decl;
pub mod message;
pub mod hooks;
pub mod moniker;
pub mod point;
pub mod storage;
pub mod story_graph;
pub mod terminal;
pub mod work_scheduler;
