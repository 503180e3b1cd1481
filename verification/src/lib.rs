//! A compiler from typed descriptions of cloud resources to a generic
//! configuration tree, and from there to the HCL renderer.
//!
//! - [`aws`] holds the resource kinds: networks, subnets, gateways, storage
//!   buckets and managed clusters, with the CIDR arithmetic, the tag map and
//!   the enumerations they use. Each kind has a `spec_block` that says which
//!   block it compiles to, and a `compile` that is proved to produce it.
//! - [`ir`] holds the tree: blocks with labels, whose bodies keep attributes
//!   and nested blocks in the order of insertion, and the builder for them.
//! - [`lowering`] rebuilds a tree with the `hcl` crate, which renders it.
//!
//! Compilation never fails and has no side effects. The one constructor that
//! can fail is that of a CIDR block, which refuses a prefix length above 32.

pub mod aws;
pub mod ir;
pub mod lowering;
