//! Path-prefix mounting for a request-handling pipeline.
//!
//! A [`mount::Mount`] wraps a nested pipeline stage together with a route
//! prefix and a termination policy.  On each request it decides whether the
//! request's path falls under the prefix; if so it strips the prefix,
//! delegates to the nested stage, restores the original path for any stages
//! running afterwards, and reports a signal chosen by its termination policy.

pub mod handlers;
pub mod matcher;
pub mod mount;
pub mod pipeline;
pub mod request;
pub mod signal;
