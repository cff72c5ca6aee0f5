//! The two ways in: webhooks from the platforms, and the control interface.

pub mod graphql;
pub mod webhooks;
