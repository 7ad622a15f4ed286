//! Verified trackpad, split-event and status-LED logic for the LaLaPad Gen2
//! keyboard firmware.
pub mod iqs9151;
pub mod rgb_widget;
pub mod rmk;
