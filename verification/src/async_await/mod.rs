//! Building blocks for code that suspends itself.

pub mod pending;

pub use pending::pending_once;
pub use pending::PendingOnce;
