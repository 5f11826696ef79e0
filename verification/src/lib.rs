//! Host-side core of a GPU ray tracer.
//!
//! The crate holds everything the host decides: which device and queue
//! family to use, what the scene and the camera contain, in which order a
//! frame's work is handed to the device, and when a finished frame may be
//! given to the display. The device itself is driven from outside: the
//! caller performs each requested action and reports what came of it.
//!
//! Every scalar is a signed fixed-point number that counts thousandths (see
//! [`fixed`]); the caller turns it into whatever the device computes with.
//!
//! - [`compute`] holds the [`compute::Tracer`] itself;
//! - [`protocol`] the order of a frame's work and what is proved of it;
//! - [`device`] the choice of the device, [`kernel`] the contract with the
//!   kernel program, [`config`] the frame's size and the buffers;
//! - [`scene`] and [`camera`] what is rendered and from where;
//! - [`graphics`] one turn of the display loop;
//! - [`failure`] what can go wrong.

pub mod camera;
pub mod compute;
pub mod config;
pub mod device;
pub mod failure;
pub mod fixed;
pub mod graphics;
pub mod kernel;
pub mod protocol;
pub mod scene;
