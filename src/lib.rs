//! Information-flow control for request handlers: protected values, the
//! request context, declassification policies and their registry.

pub mod context;
pub mod policy;
pub mod sensitive;
pub mod apikey;
pub mod answers;
pub mod lectures;
pub mod timestamp;
pub mod forms;
