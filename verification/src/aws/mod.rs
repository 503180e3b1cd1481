//! Resource kinds of the AWS provider.

pub mod availability_zone;
pub mod eks;
pub mod emit;
pub mod iam;
pub mod network;
pub mod provider;
pub mod region;
pub mod resource;
pub mod storage;
pub mod tags;
