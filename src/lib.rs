//! Server-side client logic for a passkey identity service: the unified error
//! taxonomy, the classification of upstream failures, the resolution of an
//! application's external user id to the service's internal id, and the
//! requests that each remote operation sends.

pub mod auth;
pub mod error;
pub mod json;
pub mod models;
pub mod passage_flex;
pub mod request;
pub mod resolve;
pub mod response;
pub mod user;

pub use error::Error;
pub use passage_flex::PassageFlex;
