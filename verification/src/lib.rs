//! Verified core of the GPU boids simulator: argument handling, headless
//! sampling schedule, population records, cause-of-birth/death windows and the
//! integer bookkeeping that the GPU and audio front ends rely on.

pub mod causes;
pub mod cli;
pub mod decimal;
pub mod graph;
pub mod report;
pub mod schedule;
pub mod sim;
pub mod tally;
