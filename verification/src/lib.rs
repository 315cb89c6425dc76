//! A compute-backend abstraction core: a `Buffer` handle over device
//! allocations, a composable module stack (base / cached / autograd) that
//! intercepts buffer retrieval, an allocation cache keyed by positional
//! identities, a deferred-operation graph with stale-reference detection,
//! and a gradient tape that replays backward operations in reverse order.

pub mod buffer;
pub mod cache;
pub mod count;
pub mod cpu_cache;
pub mod cuda;
pub mod cpu;
pub mod devices;
pub mod error;
pub mod features;
pub mod flag;
pub mod gradients;
pub mod id;
pub mod lazy_graph;
pub mod libs;
pub mod matrix;
pub mod modules;
pub mod tape;
pub mod unit;
pub mod wgsl;
pub mod wrapper;
