//! Compilation through the closed set of resource kinds.

use aws_hcl::aws::eks::Cluster;
use aws_hcl::aws::iam::Role;
use aws_hcl::aws::network::cidr;
use aws_hcl::aws::network::cidr::Ipv4Addr;
use aws_hcl::aws::network::gateway::internet::{Internet, InternetDataSource};
use aws_hcl::aws::network::gateway::nat_gateway::{NATDataSource, NAT};
use aws_hcl::aws::network::subnet::Subnet;
use aws_hcl::aws::network::vpc::{ElasticIp, Vpc, VpcDataSource};
use aws_hcl::aws::resource::Resource;
use aws_hcl::aws::storage::s3::{Bucket, BucketACL};
use aws_hcl::ir::Block;

fn network(name: &str) -> Vpc {
    Vpc {
        name: name.to_string(),
        cidr_block: cidr::Block::new(Ipv4Addr::new(10, 0, 0, 0), 16).unwrap(),
        instance_tenancy: None,
        enable_dns_hostnames: None,
        enable_dns_support: None,
        enable_classiclink: None,
        enable_classiclink_dns_support: None,
        assign_generated_ipv6_cidr_block: None,
        tags: None,
    }
}

#[test]
fn every_kind_compiles_as_its_own_compiler_does() {
    let vpc = network("main");
    let subnet = Subnet {
        name: "s".to_string(),
        vpc: &vpc,
        cidr_block: cidr::Block::new(Ipv4Addr::new(10, 0, 1, 0), 24).unwrap(),
        availability_zone: None,
        assign_ipv6_address_on_creation: None,
        ipv6_cidr_block: None,
        map_public_ip_on_launch: None,
        tags: None,
    };
    let eip = ElasticIp {
        name: "ip".to_string(),
        domain: None,
        instance: None,
        network_interface: None,
        public_ipv4_pool: None,
        customer_owned_ipv4_pool: None,
        associate_with_private_ip: None,
        address: None,
        tags: None,
    };
    let role = Role { name: "r".to_string() };
    let internet = Internet { name: "igw".to_string(), vpc: &vpc, tags: None };
    let internet_lookup = InternetDataSource {
        name: "igw".to_string(),
        internet_gateway_id: None,
        filter: None,
        tags: None,
    };
    let nat = NAT {
        id: None,
        vpc: &vpc,
        subnet: &subnet,
        elastic_ip: &eip,
        connectivity_type: None,
        tags: None,
        state: None,
    };
    let nat_lookup = NATDataSource {
        filter: None,
        id: Some("ngw".to_string()),
        state: None,
        subnet_id: None,
        tags: None,
        vpc_id: None,
    };
    let vpc_lookup = VpcDataSource {
        id: None,
        cidr_block: None,
        owner_id: None,
        enable_dns_hostnames: None,
        enable_dns_support: None,
        tags: None,
        filter: None,
    };
    let cluster = Cluster {
        name: "c".to_string(),
        vpc: &vpc,
        subnet_ids: vec![&subnet],
        version: None,
        role: &role,
        kubernetes_version: None,
        enabled_cluster_log_types: None,
        endpoint_private_access: None,
        endpoint_public_access: None,
        encryption_config: None,
        tags: None,
    };
    let bucket = Bucket {
        name: Some("b".to_string()),
        acl: None,
        prefix: None,
        force_destroy: None,
        object_lock_enabled: None,
        tags: None,
    };
    let list = BucketACL {
        acl: None,
        access_control_policy: None,
        bucket: "b".to_string(),
        expected_bucket_owner: None,
    };

    let cases: Vec<(Resource, Block, &str, &str)> = vec![
        (Resource::Network(vpc.clone()), vpc.compile(), "resource", "aws_vpc"),
        (Resource::NetworkDataSource(vpc_lookup.clone()), vpc_lookup.compile(), "data", "aws_vpc"),
        (Resource::Subnet(subnet.clone()), subnet.compile(), "resource", "aws_subnet"),
        (
            Resource::InternetGateway(internet.clone()),
            internet.compile(),
            "resource",
            "aws_internet_gateway",
        ),
        (
            Resource::InternetGatewayDataSource(internet_lookup.clone()),
            internet_lookup.compile(),
            "data",
            "aws_internet_gateway",
        ),
        (Resource::NatGateway(nat.clone()), nat.compile(), "resource", "aws_nat_gateway"),
        (
            Resource::NatGatewayDataSource(nat_lookup.clone()),
            nat_lookup.compile(),
            "data",
            "aws_nat_gateway",
        ),
        (Resource::ElasticIp(eip.clone()), eip.compile(), "resource", "aws_eip"),
        (Resource::ManagedCluster(cluster.clone()), cluster.compile(), "resource", "aws_eks_cluster"),
        (Resource::StorageBucket(bucket.clone()), bucket.compile(), "resource", "aws_s3_bucket"),
        (Resource::StorageBucketAcl(list.clone()), list.compile(), "resource", "aws_s3_bucket_acl"),
    ];
    for (resource, expected, block_type, first_label) in cases {
        let block = resource.compile();
        assert_eq!(resource.to_hcl(), block.to_hcl());
        assert_eq!(
            hcl::to_string(&resource.to_hcl()).unwrap(),
            hcl::to_string(&expected.to_hcl()).unwrap()
        );
        assert_eq!(block, expected);
        assert_eq!(block.block_type, block_type);
        assert_eq!(block.labels[0], first_label);
        let converted: Block = resource.into();
        assert_eq!(converted, expected);
    }
}

#[test]
fn compiling_twice_gives_the_same_block() {
    let vpc = network("twice");
    assert_eq!(vpc.compile(), vpc.compile());
    let resource = Resource::Network(vpc);
    assert_eq!(resource.compile(), resource.compile());
}

#[test]
fn a_resource_is_handed_over_as_it_was_compiled() {
    let mut vpc = network("main");
    vpc.enable_dns_support = Some(true);
    let resource = Resource::Network(vpc);
    let expected = hcl::Body::from(
        hcl::Block::builder("resource")
            .add_label("aws_vpc")
            .add_label("main")
            .add_attribute(("cidr_block", "10.0.0.0/16"))
            .add_attribute(("enable_dns_support", true))
            .build(),
    );
    assert_eq!(resource.to_hcl(), expected);
}
