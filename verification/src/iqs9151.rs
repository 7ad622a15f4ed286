//! IQS9151 trackpad logic: frame parsing, gesture recognition, motion scaling,
//! inertia, split custom events and the sensor's register protocol.
pub mod arith;
pub mod buttons;
pub mod motion;
pub mod frame;
pub mod gesture;
pub mod inertia;
pub mod output;
pub mod device;
pub mod sensor;
