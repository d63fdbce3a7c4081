//! Stock polling, snapshot fan-out and the per-profile purchase workflow
//! of a storefront checkout client, with the decisions proved.

pub mod country;
pub mod endpoint;
pub mod error;
pub mod model;
pub mod monitor;
pub mod retry;
pub mod run;
pub mod supervisor;
pub mod task;
pub mod text;

pub use error::Error;
