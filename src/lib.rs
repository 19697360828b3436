//! Session validation against a shared relational store: token extraction,
//! expiry evaluation, user hydration, a tiered-plan authorization check, and
//! the decisions of the companion-process supervisor.

pub mod companion;
pub mod plan;
pub mod session;
pub mod token;
pub mod validator;

pub use plan::plan_levels;
pub use session::User;
pub use token::extract_token;
pub use validator::{CorralUser, CorralValidator, CorralValidatorBuilder};
