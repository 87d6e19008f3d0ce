//! Supervision engine for a single-threaded cooperative actor runtime.
//!
//! A [`supervisor::Supervisor`] owns one execution context (which in turn owns
//! the actor), the consumer ends of two unbounded mailboxes — a same-thread
//! one carrying protocol messages and a cross-thread one carrying envelopes —
//! and a cached same-thread sender bound to the current context.  The
//! surrounding runtime repeatedly resumes the supervisor; each resumption
//! drains what is available, drives the context, and decides whether to
//! suspend, loop, restart the actor's context, or terminate for good.
//!
//! The collaborators the supervisor relies on (the execution context, the two
//! channels, the envelope) are modeled here as plain verified types, so the
//! scheduling and restart rules are proved rather than assumed: the actor's
//! own state survives every restart, queued messages survive restarts and are
//! applied at most once and in order, same-thread messages are drained before
//! cross-thread ones within a resumption, and once every producer handle is
//! gone and the actor terminates, supervision ends permanently.

pub mod actor;
pub mod context;
pub mod laws;
pub mod mailbox;
pub mod msgs;
pub mod supervisor;
