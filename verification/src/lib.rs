//! Schema-driven command-line argument handling for a system status reporter.
//!
//! A flat argument list is first split into groups, one per flag
//! ([`arg_parser`]); each group is then held against a table of flag rules
//! ([`validate`], or [`flag_verify`] for the built-in table). Both steps
//! report a failure as a value, and each failure can be turned into a
//! message for the user.

pub mod config;
pub mod error;
pub mod flag_options;
pub mod grouper;
pub mod token;
pub mod validator;

pub use crate::config::{Config, DisplayValue};
pub use crate::error::{ParseError, ValidationError};
pub use crate::grouper::arg_parser;
pub use crate::token::is_flag_token;
pub use crate::validator::{flag_verify, validate};
