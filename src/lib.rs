//! A Bluetooth Low Energy peripheral that advertises a Device Information
//! service and serves one central at a time.

pub mod advertising;
pub mod device_information;
pub mod lifecycle;
pub mod resources;
