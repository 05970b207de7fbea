//! User-facing message values: an action word paired with its detail text.
//!
//! The terminal that renders these lives outside the library; here a message
//! is plain data, so every component can state in its contracts exactly which
//! message it produces.

use vstd::prelude::*;

verus! {

/// How a message should be rendered: informational, a successful action,
/// a failed action, or the product banner.
#[derive(Debug, Clone, Copy, PartialEq, Eq, Structural)]
pub enum MessageType {
    Info,
    Success,
    Error,
    Banner,
}

/// An action/detail pair shown to the user, e.g. `("Failed", "to run broker")`.
#[derive(Debug, Clone)]
pub struct Message {
    pub action: String,
    pub details: String,
}

impl Message {
    pub fn new(action: String, details: String) -> (m: Message)
        ensures
            m.action@ == action@,
            m.details@ == details@,
    {
        Message { action, details }
    }
}

} // verus!
