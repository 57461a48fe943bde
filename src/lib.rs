//! A fixed-size worker pool whose dispatch rules are verified, and the
//! request classification and response framing of the small web server
//! that drives it.
pub mod http;
pub mod pool;
pub mod guarantees;
