//! DMX512 channel state, semantic channel encoding and frame assembly for
//! driving a stage-lighting fixture over a serial link.
pub mod band;
pub mod command;
pub mod fixture;
pub mod frame;
pub mod probe;
pub mod transmit;
pub mod universe;
