//! Storage buckets and their access control lists.

use crate::aws::emit::{
    add_optional_bool, add_optional_string, add_optional_tags, lemma_append_attributes,
    lemma_no_attribute_in_concat, lemma_tags_absent_or_present, optional_bool, optional_string,
    optional_tags, tags_object,
};
use crate::aws::tags::{distinct_keys, Tags};
use crate::ir::{
    attribute, lemma_value_absent, lemma_value_present, nested, no_attribute_named, Block,
    BlockView, Builder, Expr, ExprView, StructureView,
};
use crate::lowering::{
    all_kept, is_kept_block, lemma_kept_block, lemma_kept_concat, lemma_kept_tags, lowered_block,
};
use vstd::prelude::*;

verus! {

/// The two ways in which access to a bucket is stated.
#[derive(Debug, Clone, Copy, PartialEq, Eq, Structural)]
pub enum ACL {
    Acl,
    AccessControlPolicy,
}

impl ACL {
    /// The name of the argument.
    pub open spec fn spec_name(&self) -> Seq<char> {
        match self {
            ACL::Acl => "acl"@,
            ACL::AccessControlPolicy => "access_control_policy"@,
        }
    }

    /// The name of the argument, as the provider spells it.
    pub fn to_string(&self) -> (name: String)
        ensures
            name@ == self.spec_name(),
    {
        match self {
            ACL::Acl => String::from_str("acl"),
            ACL::AccessControlPolicy => String::from_str("access_control_policy"),
        }
    }
}

/// The kind of an access control policy.
#[derive(Debug, Clone, Copy, PartialEq, Eq, Structural)]
pub enum AccessControlPolicy {
    AccessControlPolicy,
    ACL,
}

impl AccessControlPolicy {
    /// The name of the kind.
    pub open spec fn spec_name(&self) -> Seq<char> {
        match self {
            AccessControlPolicy::AccessControlPolicy => "access_control_policy"@,
            AccessControlPolicy::ACL => "acl"@,
        }
    }

    /// The name of the kind, as the provider spells it.
    pub fn to_string(&self) -> (name: String)
        ensures
            name@ == self.spec_name(),
    {
        match self {
            AccessControlPolicy::AccessControlPolicy => String::from_str("access_control_policy"),
            AccessControlPolicy::ACL => String::from_str("acl"),
        }
    }

    /// The nested block of the policy: an `access_control_policy` block
    /// whose `type` attribute names the kind.
    pub open spec fn spec_block(&self) -> BlockView {
        BlockView::new("access_control_policy"@).items(
            attribute("type"@, ExprView::String(self.spec_name())),
        )
    }

    /// Compiles the policy into its block.
    pub fn compile(&self) -> (block: Block)
        ensures
            block@ == self.spec_block(),
    {
        Block::builder("access_control_policy").add_attribute(
            "type",
            Expr::String(self.to_string()),
        ).build()
    }
}

/// The canned access control lists.
#[derive(Debug, Clone, Copy, PartialEq, Eq, Structural)]
pub enum ACLOptions {
    Private,
    PublicRead,
    PublicReadWrite,
    AuthenticatedRead,
    LogDeliveryWrite,
    BucketOwnerRead,
    BucketOwnerFullControl,
}

impl ACLOptions {
    /// The name of the canned list.
    pub open spec fn spec_name(&self) -> Seq<char> {
        match self {
            ACLOptions::Private => "private"@,
            ACLOptions::PublicRead => "public-read"@,
            ACLOptions::PublicReadWrite => "public-read-write"@,
            ACLOptions::AuthenticatedRead => "authenticated-read"@,
            ACLOptions::LogDeliveryWrite => "log-delivery-write"@,
            ACLOptions::BucketOwnerRead => "bucket-owner-read"@,
            ACLOptions::BucketOwnerFullControl => "bucket-owner-full-control"@,
        }
    }

    /// The name of the canned list, as the provider spells it.
    pub fn to_string(&self) -> (name: String)
        ensures
            name@ == self.spec_name(),
    {
        match self {
            ACLOptions::Private => String::from_str("private"),
            ACLOptions::PublicRead => String::from_str("public-read"),
            ACLOptions::PublicReadWrite => String::from_str("public-read-write"),
            ACLOptions::AuthenticatedRead => String::from_str("authenticated-read"),
            ACLOptions::LogDeliveryWrite => String::from_str("log-delivery-write"),
            ACLOptions::BucketOwnerRead => String::from_str("bucket-owner-read"),
            ACLOptions::BucketOwnerFullControl => String::from_str("bucket-owner-full-control"),
        }
    }
}

/// The body items of an optional canned list: an `acl` attribute with its
/// name when it is present, nothing when it is absent.
pub open spec fn optional_acl(acl: Option<ACLOptions>) -> Seq<StructureView> {
    match acl {
        Some(a) => attribute("acl"@, ExprView::String(a.spec_name())),
        None => Seq::empty(),
    }
}

/// The canned list that a bucket gets: the one it names, `private` where it
/// names none.
pub open spec fn acl_or_private(acl: Option<ACLOptions>) -> ACLOptions {
    match acl {
        Some(a) => a,
        None => ACLOptions::Private,
    }
}

/// The body items of an optional policy: its nested block when it is
/// present, nothing when it is absent.
pub open spec fn optional_policy(policy: Option<AccessControlPolicy>) -> Seq<StructureView> {
    match policy {
        Some(p) => nested(p.spec_block()),
        None => Seq::empty(),
    }
}

fn add_optional_acl(builder: Builder, acl: &Option<ACLOptions>) -> (out: Builder)
    ensures
        out@ == builder@.items(optional_acl(*acl)),
{
    match acl {
        Some(a) => builder.add_attribute("acl", Expr::String(a.to_string())),
        None => {
            assert(builder@.body + Seq::<StructureView>::empty() =~= builder@.body);
            builder
        },
    }
}

fn add_optional_policy(builder: Builder, policy: &Option<AccessControlPolicy>) -> (out:
    Builder)
    ensures
        out@ == builder@.items(optional_policy(*policy)),
{
    match policy {
        Some(p) => builder.add_block(p.compile()),
        None => {
            assert(builder@.body + Seq::<StructureView>::empty() =~= builder@.body);
            builder
        },
    }
}

/// The access control list of a bucket.
#[derive(Debug, Clone)]
pub struct BucketACL {
    /// The canned list to apply to the bucket.
    pub acl: Option<ACLOptions>,
    /// The policy that states the permissions grantee by grantee.
    pub access_control_policy: Option<AccessControlPolicy>,
    /// The bucket that the list applies to.
    pub bucket: String,
    /// The account that is expected to own the bucket.
    pub expected_bucket_owner: Option<String>,
}

impl BucketACL {
    /// The block that the list compiles to: a `resource` block labelled
    /// `aws_s3_bucket_acl` and the bucket, with the bucket first, then the
    /// canned list, the policy as a nested block and the expected owner,
    /// each where it is present. No canned list is put in for an absent one.
    pub open spec fn spec_block(&self) -> BlockView {
        BlockView::new("resource"@).label("aws_s3_bucket_acl"@).label(self.bucket@).items(
            attribute("bucket"@, ExprView::String(self.bucket@))
                + optional_acl(self.acl)
                + optional_policy(self.access_control_policy)
                + optional_string("expected_bucket_owner"@, self.expected_bucket_owner),
        )
    }

    /// Compiles the list into its block.
    pub fn compile(&self) -> (block: Block)
        ensures
            block@ == self.spec_block(),
    {
        let builder = Block::builder("resource").add_label("aws_s3_bucket_acl").add_label(
            self.bucket.as_str(),
        ).add_attribute("bucket", Expr::String(self.bucket.clone()));
        let builder = add_optional_acl(builder, &self.acl);
        let builder = add_optional_policy(builder, &self.access_control_policy);
        let builder = add_optional_string(
            builder,
            "expected_bucket_owner",
            &self.expected_bucket_owner,
        );
        let block = builder.build();
        assert(block@.labels =~= self.spec_block().labels);
        assert(block@.body =~= self.spec_block().body);
        block
    }
}

/// What the conversion gives is stated by the `ensures` of `from` itself.
impl vstd::std_specs::convert::FromSpecImpl<BucketACL> for Block {
    open spec fn obeys_from_spec() -> bool {
        false
    }

    open spec fn from_spec(bucket_acl: BucketACL) -> Block {
        arbitrary()
    }
}

impl From<BucketACL> for Block {
    /// Compiles the list into its block.
    fn from(bucket_acl: BucketACL) -> (block: Block)
        ensures
            block@ == bucket_acl.spec_block(),
    {
        bucket_acl.compile()
    }
}

/// A storage bucket.
#[derive(Debug, Clone)]
pub struct Bucket {
    /// The name of the bucket. Without one the provider picks a name.
    pub name: Option<String>,
    /// The canned access control list of the bucket; `private` without one.
    pub acl: Option<ACLOptions>,
    /// The prefix with which the provider makes up a name.
    pub prefix: Option<String>,
    /// Whether the bucket is emptied when it is destroyed.
    pub force_destroy: Option<bool>,
    /// Whether the bucket has an object lock configuration.
    pub object_lock_enabled: Option<bool>,
    /// The tags of the bucket.
    pub tags: Option<Tags>,
}

impl Bucket {
    /// The labels of the block: `aws_s3_bucket`, and the name where there is one.
    pub open spec fn spec_labels(&self) -> Seq<Seq<char>> {
        match self.name {
            Some(name) => seq!["aws_s3_bucket"@, name@],
            None => seq!["aws_s3_bucket"@],
        }
    }

    /// The block that the bucket compiles to: a `resource` block labelled
    /// `aws_s3_bucket` and, where there is one, the name. The name comes
    /// first where there is one; the `acl` attribute is always there, with
    /// `private` for an absent list; the prefix, the two switches and the
    /// tags follow, each where it is present.
    pub open spec fn spec_block(&self) -> BlockView {
        BlockView {
            block_type: "resource"@,
            labels: self.spec_labels(),
            body: optional_string("bucket"@, self.name)
                + attribute("acl"@, ExprView::String(acl_or_private(self.acl).spec_name()))
                + optional_string("bucket_prefix"@, self.prefix)
                + optional_bool("force_destroy"@, self.force_destroy)
                + optional_bool("object_lock_enabled"@, self.object_lock_enabled)
                + optional_tags(self.tags),
        }
    }

    /// Compiles the bucket into its block.
    pub fn compile(&self) -> (block: Block)
        ensures
            block@ == self.spec_block(),
    {
        let builder = Block::builder("resource").add_label("aws_s3_bucket");
        let builder = match &self.name {
            Some(name) => builder.add_label(name.as_str()),
            None => builder,
        };
        let builder = add_optional_string(builder, "bucket", &self.name);
        let acl = match &self.acl {
            Some(acl) => *acl,
            None => ACLOptions::Private,
        };
        let builder = builder.add_attribute("acl", Expr::String(acl.to_string()));
        let builder = add_optional_string(builder, "bucket_prefix", &self.prefix);
        let builder = add_optional_bool(builder, "force_destroy", &self.force_destroy);
        let builder = add_optional_bool(builder, "object_lock_enabled", &self.object_lock_enabled);
        let builder = add_optional_tags(builder, &self.tags);
        let block = builder.build();
        assert(block@.labels =~= self.spec_block().labels);
        assert(block@.body =~= self.spec_block().body);
        block
    }
}

/// What the conversion gives is stated by the `ensures` of `from` itself.
impl vstd::std_specs::convert::FromSpecImpl<Bucket> for Block {
    open spec fn obeys_from_spec() -> bool {
        false
    }

    open spec fn from_spec(bucket: Bucket) -> Block {
        arbitrary()
    }
}

impl From<Bucket> for Block {
    /// Compiles the bucket into its block.
    fn from(bucket: Bucket) -> (block: Block)
        ensures
            block@ == bucket.spec_block(),
    {
        bucket.compile()
    }
}

/// Every bucket compiles to a block with the attribute `acl`. It names the
/// canned list of the bucket, and `private` where the bucket names none.
pub proof fn lemma_bucket_acl(bucket: Bucket)
    ensures
        bucket.spec_block().value_of("acl"@) == Some(
            ExprView::String(acl_or_private(bucket.acl).spec_name()),
        ),
        bucket.acl is None ==> bucket.spec_block().value_of("acl"@) == Some(
            ExprView::String("private"@),
        ),
        bucket.acl == Some(ACLOptions::PublicRead) ==> bucket.spec_block().value_of("acl"@) == Some(
            ExprView::String("public-read"@),
        ),
{
    reveal_strlit("acl");
    reveal_strlit("bucket");
    assert("acl"@.len() == 3);
    assert("bucket"@.len() == 6);
    let before = optional_string("bucket"@, bucket.name);
    let value = ExprView::String(acl_or_private(bucket.acl).spec_name());
    let after = optional_string("bucket_prefix"@, bucket.prefix) + optional_bool(
        "force_destroy"@,
        bucket.force_destroy,
    ) + optional_bool("object_lock_enabled"@, bucket.object_lock_enabled) + optional_tags(
        bucket.tags,
    );
    assert(no_attribute_named(before, "acl"@));
    assert(bucket.spec_block().body =~= before + attribute("acl"@, value) + after);
    lemma_value_present(before, "acl"@, value, after);
}

/// An access control list without optional fields compiles to a block with
/// only the items that every access control list has.
pub proof fn lemma_bare_bucket_acl(list: BucketACL)
    requires
        list.acl is None,
        list.access_control_policy is None,
        list.expected_bucket_owner is None,
    ensures
        list.spec_block().body == attribute("bucket"@, ExprView::String(list.bucket@)),
{
    assert(list.spec_block().body =~= attribute("bucket"@, ExprView::String(list.bucket@)));
}

/// A bucket without optional fields compiles to a block with only the items
/// that every bucket has.
pub proof fn lemma_bare_bucket(bucket: Bucket)
    requires
        bucket.name is None,
        bucket.prefix is None,
        bucket.force_destroy is None,
        bucket.object_lock_enabled is None,
        bucket.tags is None,
    ensures
        bucket.spec_block().body == (
            attribute("acl"@, ExprView::String(acl_or_private(bucket.acl).spec_name()))
        ),
{
    assert(bucket.spec_block().body =~= (
        attribute("acl"@, ExprView::String(acl_or_private(bucket.acl).spec_name()))
    ));
}

/// A bucket without tags compiles to a block without a `tags` attribute. With
/// tags, the block has the attribute `tags` with the object of the tags, which
/// is the empty object where the map is empty.
pub proof fn lemma_bucket_tags(bucket: Bucket)
    ensures
        bucket.tags is None ==> bucket.spec_block().value_of("tags"@) is None,
        bucket.tags is Some ==> bucket.spec_block().value_of("tags"@) == Some(
            tags_object(bucket.tags->Some_0@),
        ),
        bucket.tags is Some && bucket.tags->Some_0@.len() == 0 ==> bucket.spec_block().value_of(
            "tags"@,
        ) == Some(ExprView::Object(Seq::empty())),
{
    reveal_strlit("tags");
    reveal_strlit("acl");
    reveal_strlit("bucket");
    reveal_strlit("bucket_prefix");
    reveal_strlit("force_destroy");
    reveal_strlit("object_lock_enabled");
    assert("tags"@.len() == 4 && "tags"@[0] == 't');
    assert("acl"@.len() == 3);
    assert("bucket"@.len() == 6);
    assert("bucket_prefix"@.len() == 13);
    assert("force_destroy"@.len() == 13);
    assert("object_lock_enabled"@.len() == 19);
    let so_far0 = Seq::<StructureView>::empty();
    assert(no_attribute_named(so_far0, "tags"@));
    let piece1 = optional_string("bucket"@, bucket.name);
    let so_far1 = so_far0 + piece1;
    lemma_append_attributes(so_far0, piece1, "bucket"@, "tags"@);
    let piece2 = attribute("acl"@, ExprView::String(acl_or_private(bucket.acl).spec_name()));
    let so_far2 = so_far1 + piece2;
    lemma_append_attributes(so_far1, piece2, "acl"@, "tags"@);
    let piece3 = optional_string("bucket_prefix"@, bucket.prefix);
    let so_far3 = so_far2 + piece3;
    lemma_append_attributes(so_far2, piece3, "bucket_prefix"@, "tags"@);
    let piece4 = optional_bool("force_destroy"@, bucket.force_destroy);
    let so_far4 = so_far3 + piece4;
    lemma_append_attributes(so_far3, piece4, "force_destroy"@, "tags"@);
    let piece5 = optional_bool("object_lock_enabled"@, bucket.object_lock_enabled);
    let so_far5 = so_far4 + piece5;
    lemma_append_attributes(so_far4, piece5, "object_lock_enabled"@, "tags"@);
    lemma_tags_absent_or_present(bucket.tags);
    let rest = Seq::<StructureView>::empty();
    match bucket.tags {
        None => {
            lemma_no_attribute_in_concat(so_far5, rest, "tags"@);
            assert(bucket.spec_block().body =~= so_far5 + rest);
            lemma_value_absent(bucket.spec_block().body, "tags"@);
        },
        Some(tags) => {
            let object = tags_object(tags@);
            if tags@.len() == 0 {
                assert(object->Object_0 =~= Seq::empty());
            }
            assert(bucket.spec_block().body =~= so_far5 + attribute("tags"@, object) + rest);
            lemma_value_present(so_far5, "tags"@, object, rest);
        },
    }
}

/// The block of an access control policy is handed to the renderer as it is.
pub proof fn lemma_kept_policy(policy: AccessControlPolicy)
    ensures
        is_kept_block(policy.spec_block()),
{
    reveal_strlit("access_control_policy");
    reveal_strlit("type");
}

/// The block that an access control list compiles to is handed to the renderer
/// as it is: its block type and its keys are plain identifiers.
pub proof fn lemma_bucket_acl_is_kept(list: BucketACL)
    ensures
        is_kept_block(list.spec_block()),
        lowered_block(list.spec_block()) == list.spec_block(),
{
    reveal_strlit("resource");
    reveal_strlit("acl");
    reveal_strlit("bucket");
    reveal_strlit("expected_bucket_owner");
    let so_far0 = Seq::<StructureView>::empty();
    let piece1 = attribute("bucket"@, ExprView::String(list.bucket@));
    assert(all_kept(piece1));
    let so_far1 = so_far0 + piece1;
    lemma_kept_concat(so_far0, piece1);
    let piece2 = optional_acl(list.acl);
    assert(all_kept(piece2));
    let so_far2 = so_far1 + piece2;
    lemma_kept_concat(so_far1, piece2);
    let piece3 = optional_policy(list.access_control_policy);
    if let Some(policy) = list.access_control_policy {
        lemma_kept_policy(policy);
    }
    assert(all_kept(piece3));
    let so_far3 = so_far2 + piece3;
    lemma_kept_concat(so_far2, piece3);
    let piece4 = optional_string("expected_bucket_owner"@, list.expected_bucket_owner);
    assert(all_kept(piece4));
    let so_far4 = so_far3 + piece4;
    lemma_kept_concat(so_far3, piece4);
    assert(list.spec_block().body =~= so_far4);
    lemma_kept_block(list.spec_block());
}

/// The block that a bucket compiles to is handed to the renderer as it is: its
/// block type and its keys are plain identifiers, and the tags have no key
/// twice.
pub proof fn lemma_bucket_is_kept(bucket: Bucket)
    requires
        bucket.tags is Some ==> distinct_keys(bucket.tags->Some_0@),
    ensures
        is_kept_block(bucket.spec_block()),
        lowered_block(bucket.spec_block()) == bucket.spec_block(),
{
    reveal_strlit("resource");
    reveal_strlit("acl");
    reveal_strlit("bucket");
    reveal_strlit("bucket_prefix");
    reveal_strlit("force_destroy");
    reveal_strlit("object_lock_enabled");
    reveal_strlit("tags");
    let so_far0 = Seq::<StructureView>::empty();
    let piece1 = optional_string("bucket"@, bucket.name);
    assert(all_kept(piece1));
    let so_far1 = so_far0 + piece1;
    lemma_kept_concat(so_far0, piece1);
    let piece2 = attribute("acl"@, ExprView::String(acl_or_private(bucket.acl).spec_name()));
    assert(all_kept(piece2));
    let so_far2 = so_far1 + piece2;
    lemma_kept_concat(so_far1, piece2);
    let piece3 = optional_string("bucket_prefix"@, bucket.prefix);
    assert(all_kept(piece3));
    let so_far3 = so_far2 + piece3;
    lemma_kept_concat(so_far2, piece3);
    let piece4 = optional_bool("force_destroy"@, bucket.force_destroy);
    assert(all_kept(piece4));
    let so_far4 = so_far3 + piece4;
    lemma_kept_concat(so_far3, piece4);
    let piece5 = optional_bool("object_lock_enabled"@, bucket.object_lock_enabled);
    assert(all_kept(piece5));
    let so_far5 = so_far4 + piece5;
    lemma_kept_concat(so_far4, piece5);
    let piece6 = optional_tags(bucket.tags);
    if let Some(tags) = bucket.tags {
        lemma_kept_tags(tags@);
    }
    assert(all_kept(piece6));
    let so_far6 = so_far5 + piece6;
    lemma_kept_concat(so_far5, piece6);
    assert(bucket.spec_block().body =~= so_far6);
    lemma_kept_block(bucket.spec_block());
}

} // verus!
