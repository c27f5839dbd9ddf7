//! Plugin orchestration for a module bundler: a dense plugin registry, the
//! per-hook invocation order of its plugins, their hook filters, and the
//! execution context handed to each plugin.

pub mod context;
pub mod driver;
pub mod filter;
pub mod hook;
pub mod order;
pub mod order_laws;
pub mod plugin;
pub mod shared;
