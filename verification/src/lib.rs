//! A capture backend for USB Video Class cameras.
//!
//! The library holds the state of a camera and makes its decisions: which
//! device to open and under what name, how a stream is opened, reopened and
//! released, which frame to show, what the device can stream, and what is
//! reported when something fails. It never talks to the device itself. Where
//! the device is needed it hands out a request, and takes the device's answer
//! in the next call.
//!
//! - [`create`]: from an index to a camera
//! - [`device`]: the camera
//! - [`channel`], [`picture`]: frames on their way from the device to an image
//! - [`descriptor`], [`compatible`], [`rates_table`]: what the device can stream
//! - [`types`], [`error`], [`text`]: the vocabulary
//! - [`laws`], [`frame_laws`], [`listing_laws`], [`text_laws`]: what holds of the
//!   operations and across them

pub mod channel;
pub mod compatible;
pub mod create;
pub mod descriptor;
pub mod device;
pub mod error;
pub mod frame_laws;
pub mod laws;
pub mod listing_laws;
pub mod picture;
pub mod rates_table;
pub mod text;
pub mod text_laws;
pub mod types;
