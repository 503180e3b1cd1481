//! Regions, availability zones and the provider block.

use aws_hcl::aws::availability_zone::AvailabilityZone;
use aws_hcl::aws::provider::AwsProvider;
use aws_hcl::aws::region::Region;
use aws_hcl::ir::{Attribute, Block, Expr, Structure};

#[test]
fn availability_zones_have_their_names() {
    assert_eq!(AvailabilityZone::UsEast1a.to_string(), "us-east-1a");
    assert_eq!(AvailabilityZone::UsEast1b.to_string(), "us-east-1b");
    assert_eq!(AvailabilityZone::UsEast1c.to_string(), "us-east-1c");
}

#[test]
fn regions_have_their_names() {
    assert_eq!(Region::UsWest2.to_string(), "us-west-2");
    assert_eq!(Region::UsEast1.to_string(), "us-east-1");
    assert_eq!(Expr::from(Region::UsWest2), Expr::String("us-west-2".to_string()));
    assert_eq!(Expr::from(Region::UsEast1), Expr::String("us-east-1".to_string()));
}

#[test]
fn provider_block_names_the_region() {
    let block: Block = AwsProvider { region: Region::UsEast1 }.into();
    assert_eq!(block.block_type, "provider");
    assert_eq!(block.labels, vec!["aws".to_string()]);
    assert_eq!(
        block.body,
        vec![Structure::Attribute(Attribute {
            key: "region".to_string(),
            expr: Expr::String("us-east-1".to_string()),
        })]
    );
    assert_eq!(
        hcl::to_string(&block.to_hcl()).unwrap(),
        "provider \"aws\" {\n  region = \"us-east-1\"\n}\n"
    );
    let block = AwsProvider { region: Region::UsWest2 }.compile();
    assert_eq!(block.attribute("region"), Some(&Expr::String("us-west-2".to_string())));
}
