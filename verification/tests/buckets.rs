//! Storage buckets and access control lists as configuration trees.

use aws_hcl::aws::storage::s3::{ACLOptions, AccessControlPolicy, Bucket, BucketACL, ACL};
use aws_hcl::aws::tags::Tags;
use aws_hcl::ir::{Attribute, Block, Expr, Structure};

fn attr(key: &str, expr: Expr) -> Structure {
    Structure::Attribute(Attribute { key: key.to_string(), expr })
}

fn text(s: &str) -> Expr {
    Expr::String(s.to_string())
}

fn bare() -> Bucket {
    Bucket {
        name: None,
        acl: None,
        prefix: None,
        force_destroy: None,
        object_lock_enabled: None,
        tags: None,
    }
}

#[test]
fn bare_bucket_has_the_private_acl_and_nothing_else() {
    let block = bare().compile();
    assert_eq!(block.block_type, "resource");
    assert_eq!(block.labels, vec!["aws_s3_bucket".to_string()]);
    assert_eq!(block.body, vec![attr("acl", text("private"))]);
    assert_eq!(
        hcl::to_string(&block.to_hcl()).unwrap(),
        "resource \"aws_s3_bucket\" {\n  acl = \"private\"\n}\n"
    );
}

#[test]
fn absent_acl_is_private_and_named_acl_is_kept() {
    let block = bare().compile();
    assert_eq!(block.attribute("acl"), Some(&text("private")));
    let mut bucket = bare();
    bucket.acl = Some(ACLOptions::PublicRead);
    bucket.name = Some("b".to_string());
    let block = bucket.compile();
    assert_eq!(block.attribute("acl"), Some(&text("public-read")));
    assert_eq!(block.body, vec![attr("bucket", text("b")), attr("acl", text("public-read"))]);
}

#[test]
fn absent_tags_differ_from_empty_tags() {
    let block = bare().compile();
    assert_eq!(block.attribute("tags"), None);
    let mut bucket = bare();
    bucket.tags = Some(Tags::new());
    let block = bucket.compile();
    assert_eq!(block.attribute("tags"), Some(&Expr::Object(vec![])));
    assert_eq!(block.body, vec![attr("acl", text("private")), attr("tags", Expr::Object(vec![]))]);
    assert!(hcl::to_string(&block.to_hcl()).unwrap().contains("tags = {}"));
}

#[test]
fn full_bucket_is_in_order() {
    let mut tags = Tags::new();
    tags.insert("Project".to_string(), "x".to_string());
    tags.insert("Environment".to_string(), "Production".to_string());
    let bucket = Bucket {
        name: Some("my-bucket".to_string()),
        acl: Some(ACLOptions::LogDeliveryWrite),
        prefix: Some("prefix-".to_string()),
        force_destroy: Some(true),
        object_lock_enabled: Some(false),
        tags: Some(tags),
    };
    let block: Block = bucket.into();
    assert_eq!(block.labels, vec!["aws_s3_bucket".to_string(), "my-bucket".to_string()]);
    assert_eq!(
        block.body,
        vec![
            attr("bucket", text("my-bucket")),
            attr("acl", text("log-delivery-write")),
            attr("bucket_prefix", text("prefix-")),
            attr("force_destroy", Expr::Bool(true)),
            attr("object_lock_enabled", Expr::Bool(false)),
            attr(
                "tags",
                Expr::Object(vec![
                    ("Project".to_string(), text("x")),
                    ("Environment".to_string(), text("Production")),
                ])
            ),
        ]
    );
    let rendered = hcl::to_string(&block.to_hcl()).unwrap();
    assert_eq!(
        rendered,
        "resource \"aws_s3_bucket\" \"my-bucket\" {\n  bucket = \"my-bucket\"\n  acl = \"log-delivery-write\"\n  bucket_prefix = \"prefix-\"\n  force_destroy = true\n  object_lock_enabled = false\n  tags = {\n    \"Project\" = \"x\"\n    \"Environment\" = \"Production\"\n  }\n}\n"
    );
}

#[test]
fn canned_lists_have_their_names() {
    assert_eq!(ACLOptions::Private.to_string(), "private");
    assert_eq!(ACLOptions::PublicRead.to_string(), "public-read");
    assert_eq!(ACLOptions::PublicReadWrite.to_string(), "public-read-write");
    assert_eq!(ACLOptions::AuthenticatedRead.to_string(), "authenticated-read");
    assert_eq!(ACLOptions::LogDeliveryWrite.to_string(), "log-delivery-write");
    assert_eq!(ACLOptions::BucketOwnerRead.to_string(), "bucket-owner-read");
    assert_eq!(ACLOptions::BucketOwnerFullControl.to_string(), "bucket-owner-full-control");
    assert_eq!(ACL::Acl.to_string(), "acl");
    assert_eq!(ACL::AccessControlPolicy.to_string(), "access_control_policy");
    assert_eq!(AccessControlPolicy::AccessControlPolicy.to_string(), "access_control_policy");
    assert_eq!(AccessControlPolicy::ACL.to_string(), "acl");
}

#[test]
fn bucket_acl_has_no_default() {
    let list = BucketACL {
        acl: None,
        access_control_policy: None,
        bucket: "b".to_string(),
        expected_bucket_owner: None,
    };
    let block = list.compile();
    assert_eq!(block.block_type, "resource");
    assert_eq!(block.labels, vec!["aws_s3_bucket_acl".to_string(), "b".to_string()]);
    assert_eq!(block.body, vec![attr("bucket", text("b"))]);
    assert_eq!(block.attribute("acl"), None);
}

#[test]
fn bucket_acl_with_policy_and_owner() {
    let list = BucketACL {
        acl: Some(ACLOptions::BucketOwnerRead),
        access_control_policy: Some(AccessControlPolicy::ACL),
        bucket: "b".to_string(),
        expected_bucket_owner: Some("123".to_string()),
    };
    let block: Block = list.into();
    assert_eq!(
        block.body,
        vec![
            attr("bucket", text("b")),
            attr("acl", text("bucket-owner-read")),
            Structure::Block(Block {
                block_type: "access_control_policy".to_string(),
                labels: vec![],
                body: vec![attr("type", text("acl"))],
            }),
            attr("expected_bucket_owner", text("123")),
        ]
    );
    let other = AccessControlPolicy::AccessControlPolicy.compile();
    assert_eq!(other.body, vec![attr("type", text("access_control_policy"))]);
    let rendered = hcl::to_string(&block.to_hcl()).unwrap();
    assert!(rendered.contains("access_control_policy {\n    type = \"acl\"\n  }"));
}
