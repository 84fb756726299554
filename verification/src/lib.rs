//! A counter contract: one stored integer that anyone may increment and that
//! only the address which created it may reset.

pub mod contract;
pub mod decimal;
pub mod error;
pub mod execute;
pub mod laws;
pub mod model;
pub mod msg;
pub mod query;
pub mod response;
pub mod state;
