//! Combinators for futures whose output is a `Result`.

pub mod into_future;
pub mod map_err;
pub mod map_ok;
pub mod try_chain;
pub mod try_join_all;

pub use into_future::IntoFuture;
pub use map_err::MapErr;
pub use map_ok::MapOk;
pub use try_chain::TryChain;
pub use try_chain::TryChainAction;
pub use try_join_all::try_join_all;
pub use try_join_all::TryJoinAll;
