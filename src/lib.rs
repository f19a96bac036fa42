//! Verified core of a compile-and-run sandbox for untrusted programs: the
//! layout of a build workspace, the classification of compiler and guest
//! outcomes, the guest memory limiter, the deadline ticker, and the replies
//! handed back to callers.

pub mod error;
pub mod workspace;
pub mod outcome;
pub mod limits;
pub mod limiter;
pub mod ticker;
pub mod response;
pub mod static_route;
