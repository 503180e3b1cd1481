//! Networks, subnets, gateways and the CIDR arithmetic they share.

pub mod cidr;
pub mod gateway;
pub mod subnet;
pub mod vpc;
