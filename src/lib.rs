//! A per-connection HTTP request state machine with two applications on it:
//! a static responder and a path router.

pub mod context;
pub mod machine;
pub mod responder;
pub mod response;
pub mod router;
pub mod text;
