//! Loopback audio capture core: frame conversion, sample transport, device
//! selection and the decisions of the capture loop.
pub mod frames;
pub mod transport;
pub mod input;
pub mod devices;
pub mod capture;
