//! Types of Matrix APIs.

pub mod r0;
