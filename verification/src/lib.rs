//! A proof-aware continuous-integration bot: the decision logic of its
//! scheduler, webhook ingress, adapters and executor, with machine-checked
//! contracts.

pub mod adapters;
pub mod api;
pub mod cli;
pub mod dispatcher;
pub mod error;
pub mod executor;
pub mod ident;
pub mod modes;
pub mod scheduler;
pub mod seqs;
pub mod store;
pub mod text;
