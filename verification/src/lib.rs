//! Acquisition from an MPU-9150 inertial measurement unit over a register bus,
//! and the pipeline of actors that carries sensor samples to sensor fusion.
//!
//! Nothing here touches a bus, a thread or a channel. The bus protocol is a
//! set of small machines that say which bus operation comes next and take its
//! outcome; the actors run over capabilities that the caller supplies.

pub mod accel;
pub mod fc;
pub mod fusion;
pub mod gyro;
pub mod io;
pub mod mag;
