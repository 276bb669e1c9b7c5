//! Asset loaders: compiler backends that turn a flat directory of source
//! assets into a parallel directory of artifacts, once at launch and then,
//! in development, file by file as the sources change.
//!
//! The library decides and the host acts. Every function here is a pure
//! computation from plain values to plain values: what touches the file
//! system, the console or a thread comes back as a list of [`loaders::step::Step`]s
//! for the host to carry out in order.

pub mod loaders;
