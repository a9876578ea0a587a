//! Types used in the Matrix API.

pub mod content;
pub mod events;
pub mod messages;
pub mod replies;
pub mod room;
pub mod sync;
