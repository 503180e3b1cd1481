//! The closed set of resource kinds, and the one function that compiles any
//! of them.

use crate::aws::eks::Cluster;
use crate::aws::eks::lemma_cluster_is_kept;
use crate::aws::network::gateway::internet::{Internet, InternetDataSource};
use crate::aws::network::gateway::internet::{
    lemma_internet_data_source_is_kept, lemma_internet_is_kept,
};
use crate::aws::network::gateway::nat_gateway::{NATDataSource, NAT};
use crate::aws::network::gateway::nat_gateway::{
    lemma_nat_data_source_is_kept, lemma_nat_gateway_is_kept,
};
use crate::aws::network::subnet::Subnet;
use crate::aws::network::subnet::lemma_subnet_is_kept;
use crate::aws::network::vpc::{ElasticIp, Vpc, VpcDataSource};
use crate::aws::network::vpc::{
    lemma_elastic_ip_is_kept, lemma_vpc_data_source_is_kept, lemma_vpc_is_kept,
};
use crate::aws::storage::s3::{Bucket, BucketACL};
use crate::aws::storage::s3::{lemma_bucket_acl_is_kept, lemma_bucket_is_kept};
use crate::aws::tags::{distinct_keys, Tags};
use crate::ir::{nested, Block, BlockView};
use crate::lowering::{body_holds, lowered_block};
use vstd::prelude::*;

verus! {

/// A resource of any kind.
#[derive(Debug, Clone)]
pub enum Resource<'a> {
    Network(Vpc),
    NetworkDataSource(VpcDataSource),
    Subnet(Subnet<'a>),
    InternetGateway(Internet<'a>),
    InternetGatewayDataSource(InternetDataSource),
    NatGateway(NAT<'a>),
    NatGatewayDataSource(NATDataSource),
    ElasticIp(ElasticIp),
    ManagedCluster(Cluster<'a>),
    StorageBucket(Bucket),
    StorageBucketAcl(BucketACL),
}

impl<'a> Resource<'a> {
    /// The block that the resource compiles to: the block of its kind.
    pub open spec fn spec_block(&self) -> BlockView {
        match self {
            Resource::Network(r) => r.spec_block(),
            Resource::NetworkDataSource(r) => r.spec_block(),
            Resource::Subnet(r) => r.spec_block(),
            Resource::InternetGateway(r) => r.spec_block(),
            Resource::InternetGatewayDataSource(r) => r.spec_block(),
            Resource::NatGateway(r) => r.spec_block(),
            Resource::NatGatewayDataSource(r) => r.spec_block(),
            Resource::ElasticIp(r) => r.spec_block(),
            Resource::ManagedCluster(r) => r.spec_block(),
            Resource::StorageBucket(r) => r.spec_block(),
            Resource::StorageBucketAcl(r) => r.spec_block(),
        }
    }

    /// The tags of the resource, where its kind has tags and the resource
    /// has some.
    pub open spec fn spec_tags(&self) -> Option<Tags> {
        match self {
            Resource::Network(r) => r.tags,
            Resource::NetworkDataSource(r) => r.tags,
            Resource::Subnet(r) => r.tags,
            Resource::InternetGateway(r) => r.tags,
            Resource::InternetGatewayDataSource(r) => r.tags,
            Resource::NatGateway(r) => r.tags,
            Resource::NatGatewayDataSource(r) => r.tags,
            Resource::ElasticIp(r) => r.tags,
            Resource::ManagedCluster(r) => r.tags,
            Resource::StorageBucket(r) => r.tags,
            Resource::StorageBucketAcl(_) => None,
        }
    }

    /// Whether the resource is a read-only lookup.
    pub open spec fn is_data_source(&self) -> bool {
        self is NetworkDataSource || self is InternetGatewayDataSource
            || self is NatGatewayDataSource
    }

    /// Compiles the resource into its block.
    pub fn compile(&self) -> (block: Block)
        ensures
            block@ == self.spec_block(),
    {
        match self {
            Resource::Network(r) => r.compile(),
            Resource::NetworkDataSource(r) => r.compile(),
            Resource::Subnet(r) => r.compile(),
            Resource::InternetGateway(r) => r.compile(),
            Resource::InternetGatewayDataSource(r) => r.compile(),
            Resource::NatGateway(r) => r.compile(),
            Resource::NatGatewayDataSource(r) => r.compile(),
            Resource::ElasticIp(r) => r.compile(),
            Resource::ManagedCluster(r) => r.compile(),
            Resource::StorageBucket(r) => r.compile(),
            Resource::StorageBucketAcl(r) => r.compile(),
        }
    }

    /// Compiles the resource and rebuilds its block with the `hcl` crate:
    /// the body that holds the block, exactly as it was compiled, and
    /// nothing else.
    pub fn to_hcl(&self) -> (out: hcl::Body)
        ensures
            body_holds(out) == nested(self.spec_block()),
    {
        let block = self.compile();
        match tags_of(self) {
            Some(tags) => {
                proof {
                    use_type_invariant(tags);
                }
            },
            None => {},
        }
        proof {
            lemma_resource_is_kept(*self);
        }
        block.to_hcl()
    }
}

/// The tags of the resource, where its kind has tags and the resource has some.
fn tags_of<'r, 'a>(resource: &'r Resource<'a>) -> (tags: &'r Option<Tags>)
    ensures
        *tags == resource.spec_tags(),
{
    match resource {
        Resource::Network(r) => &r.tags,
        Resource::NetworkDataSource(r) => &r.tags,
        Resource::Subnet(r) => &r.tags,
        Resource::InternetGateway(r) => &r.tags,
        Resource::InternetGatewayDataSource(r) => &r.tags,
        Resource::NatGateway(r) => &r.tags,
        Resource::NatGatewayDataSource(r) => &r.tags,
        Resource::ElasticIp(r) => &r.tags,
        Resource::ManagedCluster(r) => &r.tags,
        Resource::StorageBucket(r) => &r.tags,
        Resource::StorageBucketAcl(_) => &None,
    }
}

/// The block that a resource compiles to is handed to the renderer as it
/// is: its block type and its keys are plain identifiers, and tags have no
/// key twice.
pub proof fn lemma_resource_is_kept(resource: Resource)
    requires
        resource.spec_tags() is Some ==> distinct_keys(resource.spec_tags()->Some_0@),
    ensures
        lowered_block(resource.spec_block()) == resource.spec_block(),
{
    match resource {
        Resource::Network(r) => lemma_vpc_is_kept(r),
        Resource::NetworkDataSource(r) => lemma_vpc_data_source_is_kept(r),
        Resource::Subnet(r) => lemma_subnet_is_kept(r),
        Resource::InternetGateway(r) => lemma_internet_is_kept(r),
        Resource::InternetGatewayDataSource(r) => lemma_internet_data_source_is_kept(r),
        Resource::NatGateway(r) => lemma_nat_gateway_is_kept(r),
        Resource::NatGatewayDataSource(r) => lemma_nat_data_source_is_kept(r),
        Resource::ElasticIp(r) => lemma_elastic_ip_is_kept(r),
        Resource::ManagedCluster(r) => lemma_cluster_is_kept(r),
        Resource::StorageBucket(r) => lemma_bucket_is_kept(r),
        Resource::StorageBucketAcl(r) => lemma_bucket_acl_is_kept(r),
    }
}

/// A lookup compiles to a `data` block and every other resource to a
/// `resource` block. The first label is the type of the resource.
pub proof fn lemma_block_type_and_first_label(resource: Resource)
    ensures
        resource.spec_block().block_type == if resource.is_data_source() {
            "data"@
        } else {
            "resource"@
        },
        resource.spec_block().labels.len() >= 1,
        resource.spec_block().labels[0] == match resource {
            Resource::Network(_) => "aws_vpc"@,
            Resource::NetworkDataSource(_) => "aws_vpc"@,
            Resource::Subnet(_) => "aws_subnet"@,
            Resource::InternetGateway(_) => "aws_internet_gateway"@,
            Resource::InternetGatewayDataSource(_) => "aws_internet_gateway"@,
            Resource::NatGateway(_) => "aws_nat_gateway"@,
            Resource::NatGatewayDataSource(_) => "aws_nat_gateway"@,
            Resource::ElasticIp(_) => "aws_eip"@,
            Resource::ManagedCluster(_) => "aws_eks_cluster"@,
            Resource::StorageBucket(_) => "aws_s3_bucket"@,
            Resource::StorageBucketAcl(_) => "aws_s3_bucket_acl"@,
        },
{
}

/// What the conversion gives is stated by the `ensures` of `from` itself.
impl<'a> vstd::std_specs::convert::FromSpecImpl<Resource<'a>> for Block {
    open spec fn obeys_from_spec() -> bool {
        false
    }

    open spec fn from_spec(resource: Resource<'a>) -> Block {
        arbitrary()
    }
}

impl<'a> From<Resource<'a>> for Block {
    /// Compiles the resource into its block.
    fn from(resource: Resource<'a>) -> (block: Block)
        ensures
            block@ == resource.spec_block(),
    {
        resource.compile()
    }
}

} // verus!
