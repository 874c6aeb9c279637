//! Selection and control logic for converting coordinates between
//! Earth-Centered-Earth-Fixed (ECEF) Cartesian form and geodetic
//! longitude/latitude/height (LLA) form.
//!
//! The numerical kernels work on `f64` values and live with the caller;
//! this crate holds the parts with exact, machine-checked contracts:
//! the algorithm dispatcher (method names, the unknown-name default,
//! the not-implemented signalling) and the bounded driver for the
//! iterative inverse conversion.

pub mod bowring;
pub mod dispatch;
pub mod error;
pub mod method;
