//! Gateways of a virtual private cloud.

pub mod internet;
pub mod nat_gateway;
