//! A timed-wait runtime: it computes how long a process must sleep to reach a
//! future event instant, checks on waking that the wait landed on target
//! within a tolerance, and classifies every failure into a two-tier error
//! taxonomy (configuration-time versus runtime).

pub mod decimal;
pub mod errors;
pub mod render;
pub mod wait;
