//! Polling-based futures and streams, with the combinators and registries that
//! compose them.
//!
//! A future is a state machine that is advanced by `poll`; a stream is the same
//! for a sequence of values. Every state machine in this crate describes what
//! one poll may do as a relation between the state before the poll, the state
//! after it and the value returned, and the executable `poll` is proved against
//! that relation. What a waker does when it is woken is outside these
//! relations: they say what a poll returns and leaves behind, not when the
//! next poll comes.
//!
//! No poll does unbounded work. A poll that is a loop works through at most
//! `task::YIELD_EVERY` rounds; then it wakes its own waker, so that it is
//! polled again, and returns `Pending`.

pub mod async_await;
pub mod compat;
pub mod future;
pub mod io;
pub mod sink;
pub mod stream;
pub mod task;
pub mod try_future;
pub mod try_stream;
