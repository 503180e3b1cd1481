//! Networks, subnets and gateways, compiled and rendered.

use aws_hcl::aws::availability_zone::AvailabilityZone;
use aws_hcl::aws::network::cidr;
use aws_hcl::aws::network::cidr::Ipv4Addr;
use aws_hcl::aws::network::gateway::internet;
use aws_hcl::aws::network::gateway::internet::{Internet, InternetDataSource};
use aws_hcl::aws::network::gateway::nat_gateway;
use aws_hcl::aws::network::gateway::nat_gateway::{NATDataSource, NAT};
use aws_hcl::aws::network::subnet::Subnet;
use aws_hcl::aws::network::vpc;
use aws_hcl::aws::network::vpc::{ElasticIp, Vpc, VpcDataSource};
use aws_hcl::aws::tags::Tags;
use aws_hcl::ir::{Attribute, Block, Expr, Structure};
use hcl::format::{Format, Formatter};

fn pairs(items: &[(&str, &str)]) -> Tags {
    Tags::from_pairs(items.iter().map(|(k, v)| (k.to_string(), v.to_string())).collect())
}

fn test_vpc() -> Vpc {
    Vpc {
        name: "test-vpc".to_string(),
        cidr_block: cidr::Block::new(Ipv4Addr::new(10, 0, 0, 0), 16).unwrap(),
        instance_tenancy: None,
        enable_dns_hostnames: None,
        enable_dns_support: None,
        enable_classiclink: None,
        enable_classiclink_dns_support: None,
        assign_generated_ipv6_cidr_block: None,
        tags: None,
    }
}

fn compact(block: &Block) -> String {
    let mut formatter = Formatter::builder().compact_arrays(true).prefer_ident_keys(true).build_vec();
    block.to_hcl().format_string(&mut formatter).unwrap()
}

fn attr(key: &str, expr: Expr) -> Structure {
    Structure::Attribute(Attribute { key: key.to_string(), expr })
}

#[test]
fn test_internet_gateway_to_hcl() {
    let vpc = test_vpc();

    let internet_gateway = Internet {
        name: "main-igw".to_string(),
        vpc: &vpc,
        tags: Some(pairs(&[("Name", "Main Internet Gateway"), ("Environment", "Production")])),
    };

    let block: Block = internet_gateway.into();
    let hcl = hcl::to_string(&block.to_hcl()).unwrap();

    assert!(hcl.contains(r#"resource "aws_internet_gateway" "main-igw""#));
    assert!(hcl.contains(r#"vpc_id = ${aws_vpc.test-vpc.id}"#));
    assert!(hcl.contains(r#"tags = {"#));
    assert!(hcl.contains(r#""Name" = "Main Internet Gateway""#));
    assert!(hcl.contains(r#""Environment" = "Production""#));
}

#[test]
fn test_internet_gateway_data_source_to_hcl() {
    let data_source = InternetDataSource {
        name: "main-igw".to_string(),
        internet_gateway_id: Some("igw-12345".to_string()),
        tags: Some(pairs(&[("Name", "Main Internet Gateway")])),
        filter: Some(vec![internet::Filter {
            name: "attachment.vpc-id".to_string(),
            values: vec!["vpc-12345".to_string()],
        }]),
    };

    let block: Block = data_source.into();
    let hcl = hcl::to_string(&block.to_hcl()).unwrap();

    assert!(hcl.contains(r#"data "aws_internet_gateway" "main-igw""#));
    assert!(hcl.contains(r#"internet_gateway_id = "igw-12345""#));
    assert!(hcl.contains(r#"tags = {"#));
    assert!(hcl.contains(r#""Name" = "Main Internet Gateway""#));
    assert!(hcl.contains(r#"filter {"#));
    assert!(hcl.contains(r#"name = "attachment.vpc-id""#));
    assert!(hcl.contains(
        r#"values = [
      "vpc-12345"
    ]"#
    ));
}

#[test]
fn test_nat_gateway_to_hcl() {
    let vpc = test_vpc();
    let subnet = Subnet {
        name: "public_subnet".to_string(),
        vpc: &vpc,
        cidr_block: cidr::Block::new(Ipv4Addr::new(10, 0, 1, 0), 24).unwrap(),
        availability_zone: None,
        assign_ipv6_address_on_creation: None,
        ipv6_cidr_block: None,
        map_public_ip_on_launch: None,
        tags: None,
    };
    let elastic_ip = ElasticIp {
        name: "eipalloc-12345".to_string(),
        domain: None,
        instance: None,
        network_interface: None,
        public_ipv4_pool: None,
        customer_owned_ipv4_pool: None,
        associate_with_private_ip: None,
        address: None,
        tags: None,
    };

    let nat_gateway = NAT {
        id: Some("ngw-12345".to_string()),
        subnet: &subnet,
        vpc: &vpc,
        elastic_ip: &elastic_ip,
        connectivity_type: Some("public".to_string()),
        tags: Some(pairs(&[("Name", "Main NAT Gateway"), ("Environment", "Production")])),
        state: None,
    };

    let block: Block = nat_gateway.into();
    let hcl = hcl::to_string(&block.to_hcl()).unwrap();

    assert!(hcl.contains(r#"resource "aws_nat_gateway" "ngw-12345""#));
    assert!(hcl.contains(r#"subnet_id = ${aws_subnet.public_subnet.id}"#));
    assert!(hcl.contains(r#"allocation_id = ${aws_eip.eipalloc-12345.id}"#));
    assert!(hcl.contains(r#"connectivity_type = "public""#));
    assert!(hcl.contains(r#"tags = {"#));
    assert!(hcl.contains(r#""Name" = "Main NAT Gateway""#));
    assert!(hcl.contains(r#""Environment" = "Production""#));
    assert!(!hcl.contains("state ="));
}

#[test]
fn test_nat_gateway_data_source_to_hcl() {
    let data_source = NATDataSource {
        id: Some("ngw-12345".to_string()),
        subnet_id: Some("subnet-12345".to_string()),
        vpc_id: Some("vpc-12345".to_string()),
        state: Some("available".to_string()),
        tags: Some(pairs(&[("Name", "Main NAT Gateway")])),
        filter: Some(vec![nat_gateway::Filter {
            name: "vpc-id".to_string(),
            values: vec!["vpc-12345".to_string()],
        }]),
    };

    let block: Block = data_source.into();
    let hcl = hcl::to_string(&block.to_hcl()).unwrap();

    assert!(hcl.contains(r#"data "aws_nat_gateway" "ngw-12345""#));
    assert!(hcl.contains(r#"id = "ngw-12345""#));
    assert!(hcl.contains(r#"subnet_id = "subnet-12345""#));
    assert!(hcl.contains(r#"vpc_id = "vpc-12345""#));
    assert!(hcl.contains(r#"state = "available""#));
    assert!(hcl.contains(r#"tags = {"#));
    assert!(hcl.contains(r#""Name" = "Main NAT Gateway""#));
    assert!(hcl.contains(r#"filter {"#));
    assert!(hcl.contains(r#"name = "vpc-id""#));
    assert!(hcl.contains(
        r#"values = [
      "vpc-12345"
    ]"#
    ));
}

#[test]
fn test_vpc_to_hcl() {
    let vpc = Vpc {
        name: "main".to_string(),
        cidr_block: cidr::Block::new(Ipv4Addr::new(10, 0, 0, 0), 16).unwrap(),
        instance_tenancy: Some("default".to_string()),
        enable_dns_hostnames: Some(true),
        enable_dns_support: Some(true),
        enable_classiclink: None,
        enable_classiclink_dns_support: None,
        assign_generated_ipv6_cidr_block: Some(false),
        tags: Some(pairs(&[("Name", "Main VPC"), ("Environment", "Production")])),
    };

    let block: Block = vpc.into();
    let hcl = compact(&block);

    assert!(hcl.contains("resource \"aws_vpc\" \"main\""));
    assert!(hcl.contains("cidr_block = \"10.0.0.0/16\""));
    assert!(hcl.contains("instance_tenancy = \"default\""));
    assert!(hcl.contains("enable_dns_hostnames = true"));
    assert!(hcl.contains("enable_dns_support = true"));
    assert!(hcl.contains("assign_generated_ipv6_cidr_block = false"));
    assert!(hcl.contains("tags = {"));
    assert!(hcl.contains("Name = \"Main VPC\""));
    assert!(hcl.contains("Environment = \"Production\""));
    assert!(!hcl.contains("enable_classiclink"));
}

#[test]
fn test_vpc_data_source_to_hcl() {
    let data_source = VpcDataSource {
        id: Some("vpc-12345".to_string()),
        cidr_block: Some("10.0.0.0/16".to_string()),
        owner_id: Some("123456789012".to_string()),
        enable_dns_hostnames: Some(true),
        enable_dns_support: Some(true),
        tags: Some(pairs(&[("Name", "Main VPC")])),
        filter: Some(vec![vpc::Filter {
            name: "tag:Environment".to_string(),
            values: vec!["Production".to_string()],
        }]),
    };

    let block: Block = data_source.into();
    let hcl = compact(&block);

    assert!(hcl.contains("data \"aws_vpc\" \"vpc-12345\""));
    assert!(hcl.contains("id = \"vpc-12345\""));
    assert!(hcl.contains("cidr_block = \"10.0.0.0/16\""));
    assert!(hcl.contains("owner_id = \"123456789012\""));
    assert!(hcl.contains("enable_dns_hostnames = true"));
    assert!(hcl.contains("enable_dns_support = true"));
    assert!(hcl.contains("tags = {"));
    assert!(hcl.contains("Name = \"Main VPC\""));
    assert!(hcl.contains("filter {"));
    assert!(hcl.contains("name = \"tag:Environment\""));
    assert!(hcl.contains("values = [\"Production\"]"));
}

#[test]
fn network_scenario_end_to_end() {
    let vpc = Vpc {
        name: "main".to_string(),
        cidr_block: cidr::Block::new(Ipv4Addr::new(10, 0, 0, 0), 16).unwrap(),
        instance_tenancy: None,
        enable_dns_hostnames: None,
        enable_dns_support: Some(true),
        enable_classiclink: None,
        enable_classiclink_dns_support: None,
        assign_generated_ipv6_cidr_block: None,
        tags: None,
    };
    assert_eq!(vpc.resource_name(), "aws_vpc.main");
    let block = vpc.compile();
    assert_eq!(block.block_type, "resource");
    assert_eq!(block.labels, vec!["aws_vpc".to_string(), "main".to_string()]);
    assert_eq!(
        block.body,
        vec![
            attr("cidr_block", Expr::String("10.0.0.0/16".to_string())),
            attr("enable_dns_support", Expr::Bool(true)),
        ]
    );
    assert_eq!(block.attribute("tags"), None);
    assert_eq!(
        hcl::to_string(&block.to_hcl()).unwrap(),
        "resource \"aws_vpc\" \"main\" {\n  cidr_block = \"10.0.0.0/16\"\n  enable_dns_support = true\n}\n"
    );
}

#[test]
fn vpc_emits_every_present_field_in_order() {
    let vpc = Vpc {
        name: "all".to_string(),
        cidr_block: cidr::Block::new(Ipv4Addr::new(172, 16, 0, 0), 12).unwrap(),
        instance_tenancy: Some("dedicated".to_string()),
        enable_dns_hostnames: Some(false),
        enable_dns_support: Some(true),
        enable_classiclink: Some(false),
        enable_classiclink_dns_support: Some(true),
        assign_generated_ipv6_cidr_block: Some(true),
        tags: Some(pairs(&[("a", "1")])),
    };
    let block: Block = vpc.into();
    assert_eq!(
        block.body,
        vec![
            attr("cidr_block", Expr::String("172.16.0.0/12".to_string())),
            attr("instance_tenancy", Expr::String("dedicated".to_string())),
            attr("enable_dns_hostnames", Expr::Bool(false)),
            attr("enable_dns_support", Expr::Bool(true)),
            attr("enable_classiclink", Expr::Bool(false)),
            attr("enable_classiclink_dns_support", Expr::Bool(true)),
            attr("assign_generated_ipv6_cidr_block", Expr::Bool(true)),
            attr(
                "tags",
                Expr::Object(vec![("a".to_string(), Expr::String("1".to_string()))])
            ),
        ]
    );
}

#[test]
fn subnet_refers_to_its_network() {
    let mut vpc = test_vpc();
    vpc.name = "main".to_string();
    let subnet = Subnet {
        name: "private-a".to_string(),
        vpc: &vpc,
        cidr_block: cidr::Block::new(Ipv4Addr::new(10, 0, 1, 0), 24).unwrap(),
        availability_zone: Some(AvailabilityZone::UsEast1b),
        assign_ipv6_address_on_creation: Some(false),
        ipv6_cidr_block: Some("2001:db8::/64".to_string()),
        map_public_ip_on_launch: Some(true),
        tags: None,
    };
    let block = subnet.compile();
    assert_eq!(block.block_type, "resource");
    assert_eq!(block.labels, vec!["aws_subnet".to_string(), "private-a".to_string()]);
    assert_eq!(
        block.attribute("vpc_id"),
        Some(&Expr::RawReference("${aws_vpc.main.id}".to_string()))
    );
    assert_ne!(block.attribute("vpc_id"), Some(&Expr::String("${aws_vpc.main.id}".to_string())));
    assert_eq!(
        block.body,
        vec![
            attr("vpc_id", Expr::RawReference("${aws_vpc.main.id}".to_string())),
            attr("cidr_block", Expr::String("10.0.1.0/24".to_string())),
            attr("availability_zone", Expr::String("us-east-1b".to_string())),
            attr("assign_ipv6_address_on_creation", Expr::Bool(false)),
            attr("ipv6_cidr_block", Expr::String("2001:db8::/64".to_string())),
            attr("map_public_ip_on_launch", Expr::Bool(true)),
        ]
    );
    let text = hcl::to_string(&block.to_hcl()).unwrap();
    assert!(text.contains("vpc_id = ${aws_vpc.main.id}\n"));
    assert!(!text.contains("\"${aws_vpc.main.id}\""));
}

#[test]
fn bare_subnet_has_only_network_and_range() {
    let vpc = test_vpc();
    let subnet = Subnet {
        name: "s".to_string(),
        vpc: &vpc,
        cidr_block: cidr::Block::new(Ipv4Addr::new(10, 0, 1, 0), 24).unwrap(),
        availability_zone: None,
        assign_ipv6_address_on_creation: None,
        ipv6_cidr_block: None,
        map_public_ip_on_launch: None,
        tags: None,
    };
    let block: Block = subnet.into();
    assert_eq!(
        block.body,
        vec![
            attr("vpc_id", Expr::RawReference("${aws_vpc.test-vpc.id}".to_string())),
            attr("cidr_block", Expr::String("10.0.1.0/24".to_string())),
        ]
    );
}

#[test]
fn nat_gateway_without_identifier_is_labelled_nat() {
    let vpc = test_vpc();
    let subnet = Subnet {
        name: "pub".to_string(),
        vpc: &vpc,
        cidr_block: cidr::Block::new(Ipv4Addr::new(10, 0, 1, 0), 24).unwrap(),
        availability_zone: None,
        assign_ipv6_address_on_creation: None,
        ipv6_cidr_block: None,
        map_public_ip_on_launch: None,
        tags: None,
    };
    let elastic_ip = ElasticIp {
        name: "ip".to_string(),
        domain: Some("vpc".to_string()),
        instance: None,
        network_interface: None,
        public_ipv4_pool: None,
        customer_owned_ipv4_pool: None,
        associate_with_private_ip: None,
        address: None,
        tags: None,
    };
    let gateway = NAT {
        id: None,
        vpc: &vpc,
        subnet: &subnet,
        elastic_ip: &elastic_ip,
        connectivity_type: None,
        tags: None,
        state: Some("available".to_string()),
    };
    let block = gateway.compile();
    assert_eq!(block.labels, vec!["aws_nat_gateway".to_string(), "nat".to_string()]);
    assert_eq!(
        block.body,
        vec![
            attr("subnet_id", Expr::RawReference("${aws_subnet.pub.id}".to_string())),
            attr("allocation_id", Expr::RawReference("${aws_eip.ip.id}".to_string())),
            attr("state", Expr::String("available".to_string())),
        ]
    );
    let eip_block: Block = elastic_ip.into();
    assert_eq!(eip_block.block_type, "resource");
    assert_eq!(eip_block.labels, vec!["aws_eip".to_string(), "ip".to_string()]);
    assert_eq!(eip_block.body, vec![attr("domain", Expr::String("vpc".to_string()))]);
}

#[test]
fn lookups_are_data_blocks_with_fallback_labels() {
    let lookup = NATDataSource {
        filter: None,
        id: None,
        state: None,
        subnet_id: None,
        tags: None,
        vpc_id: None,
    };
    let block = lookup.compile();
    assert_eq!(block.block_type, "data");
    assert_eq!(block.labels, vec!["aws_nat_gateway".to_string(), "nat".to_string()]);
    assert!(block.body.is_empty());

    let lookup = VpcDataSource {
        id: None,
        cidr_block: None,
        owner_id: None,
        enable_dns_hostnames: None,
        enable_dns_support: None,
        tags: None,
        filter: None,
    };
    let block = lookup.compile();
    assert_eq!(block.block_type, "data");
    assert_eq!(block.labels, vec!["aws_vpc".to_string(), "vpc".to_string()]);
    assert!(block.body.is_empty());
    assert_eq!(hcl::to_string(&block.to_hcl()).unwrap(), "data \"aws_vpc\" \"vpc\" {}\n");
}

#[test]
fn filters_keep_their_order() {
    let lookup = InternetDataSource {
        name: "igw".to_string(),
        internet_gateway_id: None,
        filter: Some(vec![
            internet::Filter { name: "a".to_string(), values: vec!["1".to_string(), "2".to_string()] },
            internet::Filter { name: "b".to_string(), values: vec![] },
        ]),
        tags: Some(Tags::new()),
    };
    let block = lookup.compile();
    assert_eq!(block.body.len(), 3);
    assert_eq!(block.body[0], attr("tags", Expr::Object(vec![])));
    let first = Block {
        block_type: "filter".to_string(),
        labels: vec![],
        body: vec![
            attr("name", Expr::String("a".to_string())),
            attr(
                "values",
                Expr::Array(vec![Expr::String("1".to_string()), Expr::String("2".to_string())]),
            ),
        ],
    };
    let second = Block {
        block_type: "filter".to_string(),
        labels: vec![],
        body: vec![attr("name", Expr::String("b".to_string())), attr("values", Expr::Array(vec![]))],
    };
    assert_eq!(block.body[1], Structure::Block(first));
    assert_eq!(block.body[2], Structure::Block(second));
    let text = hcl::to_string(&block.to_hcl()).unwrap();
    let a = text.find("name = \"a\"").unwrap();
    let b = text.find("name = \"b\"").unwrap();
    assert!(a < b);
}

#[test]
fn lookup_nests_one_block_for_each_filter() {
    let lookup = VpcDataSource {
        id: Some("vpc-1".to_string()),
        cidr_block: None,
        owner_id: None,
        enable_dns_hostnames: None,
        enable_dns_support: None,
        tags: None,
        filter: Some(vec![
            vpc::Filter { name: "a".to_string(), values: vec!["x".to_string()] },
            vpc::Filter { name: "b".to_string(), values: vec!["y".to_string()] },
            vpc::Filter { name: "a".to_string(), values: vec![] },
        ]),
    };
    let block = lookup.compile();
    let nested = block.nested_blocks();
    assert_eq!(nested.len(), 3);
    assert_eq!(nested[0], &vpc::Filter { name: "a".to_string(), values: vec!["x".to_string()] }.compile());
    assert_eq!(nested[1].attribute("name"), Some(&Expr::String("b".to_string())));
    assert_eq!(nested[2].attribute("values"), Some(&Expr::Array(vec![])));
    assert_eq!(block.attributes().len(), 1);
    assert_eq!(block.labels, vec!["aws_vpc".to_string(), "vpc-1".to_string()]);
}
