//! Control core of a quasi-continuous-wave resonant power-converter driver.
//!
//! The core generates two phase-shifted gate-drive waveforms, tracks the
//! resonant frequency of the driven load through a feedback capture timer,
//! and locks drive phase and frequency to that feedback while enforcing a
//! hard overcurrent cutoff.
//!
//! The hardware (HRTIM timer channels, the capture unit, the overcurrent
//! input and the interrupt mask) is represented as plain register values, so
//! that every decision the controller makes — and the atomic register-update
//! discipline that keeps the power stage free of glitch pulses — is stated in
//! contracts and proved.  A thin platform layer owns the real peripherals,
//! mirrors the committed register images into them, and feeds captured
//! feedback periods and the overcurrent input level back in.

pub mod clock;
pub mod controller;
pub mod hw;
pub mod timing;
