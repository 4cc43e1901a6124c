//! The units: the components that bring data into the pipeline.

pub mod rtr;
