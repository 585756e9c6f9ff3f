//! Host-side control logic of a driver for the nRF70 Wi-Fi companion chip:
//! the hand-over of one action at a time between the control side and the
//! bus runner, streamed responses, and the interpretation of scan results.

pub mod error;
pub mod bounded;
pub mod action;
pub mod scan;
pub mod laws;
