//! Managed clusters, compiled and rendered.

use aws_hcl::aws::eks::{Cluster, EncryptionConfig};
use aws_hcl::aws::iam::Role;
use aws_hcl::aws::network::cidr;
use aws_hcl::aws::network::cidr::Ipv4Addr;
use aws_hcl::aws::network::subnet::Subnet;
use aws_hcl::aws::network::vpc::Vpc;
use aws_hcl::aws::tags::Tags;
use aws_hcl::ir::{Attribute, Block, Expr, Structure};
use hcl::format::{Format, Formatter};

fn attr(key: &str, expr: Expr) -> Structure {
    Structure::Attribute(Attribute { key: key.to_string(), expr })
}

fn network() -> Vpc {
    Vpc {
        name: "test-vpc".to_string(),
        cidr_block: cidr::Block::new(Ipv4Addr::new(10, 0, 0, 0), 16).unwrap(),
        instance_tenancy: None,
        enable_dns_hostnames: None,
        enable_dns_support: None,
        enable_classiclink: None,
        enable_classiclink_dns_support: None,
        assign_generated_ipv6_cidr_block: None,
        tags: None,
    }
}

fn subnet<'a>(vpc: &'a Vpc, name: &str, third: u8) -> Subnet<'a> {
    Subnet {
        name: name.to_string(),
        vpc,
        cidr_block: cidr::Block::new(Ipv4Addr::new(10, 0, third, 0), 24).unwrap(),
        availability_zone: None,
        assign_ipv6_address_on_creation: None,
        ipv6_cidr_block: None,
        map_public_ip_on_launch: None,
        tags: None,
    }
}

#[test]
fn test_eks_cluster_to_hcl() {
    let vpc = network();
    let subnet1 = subnet(&vpc, "subnet1", 1);
    let subnet2 = subnet(&vpc, "subnet2", 2);
    let role = Role { name: "eks-cluster-role".to_string() };

    let mut tags = Tags::new();
    tags.insert("Environment".to_string(), "Production".to_string());
    tags.insert("Project".to_string(), "EKS".to_string());

    let cluster = Cluster {
        name: "test-cluster".to_string(),
        vpc: &vpc,
        subnet_ids: vec![&subnet1, &subnet2],
        version: Some("1.21".to_string()),
        role: &role,
        kubernetes_version: None,
        enabled_cluster_log_types: Some(vec!["api".to_string(), "audit".to_string()]),
        endpoint_private_access: Some(true),
        endpoint_public_access: Some(false),
        encryption_config: Some(EncryptionConfig {
            kms_key_arn:
                "arn:aws:kms:us-west-2:111122223333:key/1234abcd-12ab-34cd-56ef-1234567890ab"
                    .to_string(),
        }),
        tags: Some(tags),
    };

    let block: Block = cluster.into();
    let mut formatter = Formatter::builder().compact_arrays(true).build_vec();
    let hcl = block.to_hcl().format_string(&mut formatter).unwrap();

    assert!(hcl.contains(r#"resource "aws_eks_cluster" "test-cluster" {"#));
    assert!(hcl.contains(r#"name = "test-cluster""#));
    assert!(hcl.contains(r#"role_arn = ${aws_iam_role.eks-cluster-role.arn}"#));
    assert!(hcl.contains(r#"vpc_config {"#));
    assert!(hcl.contains(r#"subnet_ids = [${aws_subnet.subnet1.id}, ${aws_subnet.subnet2.id}]"#));
    assert!(hcl.contains(r#"version = "1.21""#));
    assert!(hcl.contains(r#"enabled_cluster_log_types = ["api", "audit"]"#));
    assert!(hcl.contains(r#"endpoint_private_access = true"#));
    assert!(hcl.contains(r#"endpoint_public_access = false"#));
    assert!(hcl.contains(r#"encryption_config {"#));
    assert!(hcl.contains(r#"provider {"#));
    assert!(hcl.contains(r#"key_arn = "arn:aws:kms:us-west-2:111122223333:key/1234abcd-12ab-34cd-56ef-1234567890ab""#));
    assert!(hcl.contains(r#"tags = {"#));
    assert!(hcl.contains(r#""Environment" = "Production""#));
    assert!(hcl.contains(r#""Project" = "EKS""#));
}

#[test]
fn cluster_body_is_in_order() {
    let vpc = network();
    let a = subnet(&vpc, "a", 1);
    let role = Role { name: "r".to_string() };
    let cluster = Cluster {
        name: "c".to_string(),
        vpc: &vpc,
        subnet_ids: vec![&a],
        version: None,
        role: &role,
        kubernetes_version: Some("1.29".to_string()),
        enabled_cluster_log_types: None,
        endpoint_private_access: None,
        endpoint_public_access: None,
        encryption_config: Some(EncryptionConfig { kms_key_arn: "k".to_string() }),
        tags: None,
    };
    let block = cluster.compile();
    assert_eq!(block.block_type, "resource");
    assert_eq!(block.labels, vec!["aws_eks_cluster".to_string(), "c".to_string()]);
    let vpc_config = Block {
        block_type: "vpc_config".to_string(),
        labels: vec![],
        body: vec![attr(
            "subnet_ids",
            Expr::Array(vec![Expr::RawReference("${aws_subnet.a.id}".to_string())]),
        )],
    };
    let encryption = Block {
        block_type: "encryption_config".to_string(),
        labels: vec![],
        body: vec![Structure::Block(Block {
            block_type: "provider".to_string(),
            labels: vec![],
            body: vec![attr("key_arn", Expr::String("k".to_string()))],
        })],
    };
    assert_eq!(
        block.body,
        vec![
            attr("name", Expr::String("c".to_string())),
            attr("role_arn", Expr::RawReference("${aws_iam_role.r.arn}".to_string())),
            Structure::Block(vpc_config),
            attr("kubernetes_version", Expr::String("1.29".to_string())),
            Structure::Block(encryption),
        ]
    );
}

#[test]
fn bare_cluster_has_name_role_and_network_only() {
    let vpc = network();
    let role = Role { name: "r".to_string() };
    let cluster = Cluster {
        name: "c".to_string(),
        vpc: &vpc,
        subnet_ids: vec![],
        version: None,
        role: &role,
        kubernetes_version: None,
        enabled_cluster_log_types: None,
        endpoint_private_access: None,
        endpoint_public_access: None,
        encryption_config: None,
        tags: None,
    };
    let block = cluster.compile();
    assert_eq!(block.body.len(), 3);
    assert_eq!(block.attribute("name"), Some(&Expr::String("c".to_string())));
    assert_eq!(
        block.body[2],
        Structure::Block(Block {
            block_type: "vpc_config".to_string(),
            labels: vec![],
            body: vec![attr("subnet_ids", Expr::Array(vec![]))],
        })
    );
}
