//! A minimal ticket-tracking service core: request-context resolution and
//! authorization, a tombstoned in-memory ticket store, and a unified
//! error-to-response mapping, all with verified contracts.

pub mod auth;
pub mod ctx;
pub mod error;
pub mod login;
pub mod model;
pub mod pipeline;
pub mod response;
pub mod strutil;
pub mod token;
