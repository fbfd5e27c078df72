//! Search for a cannon launch (speed and elevation) that carries a ball
//! furthest, past or against a wall.
//!
//! Every physical quantity is held as its IEEE-754 binary64 encoding. The
//! library decides everything that rests on comparing such quantities; the
//! arithmetic on them is done by the caller.
pub mod encoding;
pub mod units;
pub mod plan;
pub mod trajectory;
pub mod search;
pub mod environment;
