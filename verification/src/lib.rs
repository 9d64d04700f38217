//! Verified core of the BoursoBank transfer client: the progress of a
//! transfer, the requests each step sends, how each reply is read, and the
//! decisions that drive a transfer from validation to completion.

pub mod error;
pub mod flow;
pub mod progress;
pub mod reply;
pub mod request;
pub mod page;
pub mod text;
