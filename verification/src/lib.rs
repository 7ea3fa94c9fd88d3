//! Verified core of a driver for SVBony astronomy cameras.
//!
//! The crate holds everything the driver decides: how vendor status codes
//! and raw descriptors are read, which controls a camera offers and within
//! which limits, when streaming may start and stop, how long a frame read
//! may block, which buffer the next frame lands in, and how a frame reaches
//! its consumers. Talking to the vendor SDK is left to the caller, who
//! performs the requests this crate hands out and feeds the replies back.

pub mod acquisition;
pub mod camera;
pub mod capability;
pub mod control;
pub mod decode;
pub mod errors;
pub mod frame;
pub mod session;
pub mod structs;
pub mod types;
