//! Two small probes of the language: a record that holds a callable beside the
//! data it is called on, and a generic record whose in-memory footprint is
//! measured for two orderings of its type arguments.

pub mod closure;
pub mod repr;
