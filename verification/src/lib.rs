//! Build-and-launch orchestration for an interactive development container.
//!
//! The library holds the verified core of the pipeline: resolving the
//! package set into a build-argument string, planning image acquisition,
//! assembling the layered build and interactive run invocations, capturing
//! the built image identifier from a streamed build log, and a model of the
//! concurrent recipe-writing protocol.

pub mod capture;
pub mod errors;
pub mod packages;
pub mod pipe;
pub mod stages;
