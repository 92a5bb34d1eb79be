//! The exact side of a Monte Carlo statistics engine for paths of stochastic
//! processes: the checks that run before any path is drawn, the positions of
//! a path that an estimate reads, the rule that one failed draw fails the
//! estimate, bounded integer variates, and the one error type that all of
//! these report with.

pub mod error;
pub mod random;
pub mod quadrature;
pub mod checks;
pub mod path;
pub mod samples;
