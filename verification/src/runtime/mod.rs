//! Channel9 device-code login and push polling, as transitions from state and
//! answer to next state and request.

pub mod types;
pub mod messages;
pub mod login;
pub mod push;
pub mod laws;
