//! Managed Kubernetes clusters.

use crate::aws::emit::{
    add_optional_bool, add_optional_string, add_optional_strings, add_optional_tags,
    lemma_append_attributes, lemma_no_attribute_in_concat, lemma_tags_absent_or_present,
    optional_bool, optional_string, optional_strings, optional_tags, reference, reference_token,
    tags_object,
};
use crate::aws::iam::Role;
use crate::aws::network::subnet::Subnet;
use crate::aws::network::vpc::Vpc;
use crate::aws::tags::{distinct_keys, Tags};
use crate::ir::{
    attribute, lemma_value_absent, lemma_value_present, nested, no_attribute_named, strings_view,
    Block, BlockView, Builder, Expr, ExprView, StructureView,
};
use crate::lowering::{
    all_kept, is_kept_block, is_kept_expression, lemma_kept_block, lemma_kept_concat,
    lemma_kept_strings, lemma_kept_tags, lowered_block,
};
use vstd::prelude::*;

verus! {

/// A managed Kubernetes cluster.
#[derive(Debug, Clone)]
pub struct Cluster<'a> {
    /// The name of the cluster.
    pub name: String,
    /// The network of the cluster.
    pub vpc: &'a Vpc,
    /// The subnets in which the cluster is created.
    pub subnet_ids: Vec<&'a Subnet<'a>>,
    /// The version of the Kubernetes control plane.
    pub version: Option<String>,
    /// The role by which the cluster reaches other services.
    pub role: &'a Role,
    /// The version of Kubernetes on the cluster.
    pub kubernetes_version: Option<String>,
    /// The kinds of control plane logs to enable.
    pub enabled_cluster_log_types: Option<Vec<String>>,
    /// Whether the private endpoint of the API server is enabled.
    pub endpoint_private_access: Option<bool>,
    /// Whether the public endpoint of the API server is enabled.
    pub endpoint_public_access: Option<bool>,
    /// How the secrets of the cluster are encrypted.
    pub encryption_config: Option<EncryptionConfig>,
    /// The tags of the cluster.
    pub tags: Option<Tags>,
}

/// The encryption of a cluster's secrets.
#[derive(Debug, Clone)]
pub struct EncryptionConfig {
    /// The key that envelops the secrets.
    pub kms_key_arn: String,
}

impl EncryptionConfig {
    /// The block that the configuration compiles to: an `encryption_config`
    /// block that holds a `provider` block with the key.
    pub open spec fn spec_block(&self) -> BlockView {
        BlockView::new("encryption_config"@).items(
            nested(
                BlockView::new("provider"@).items(
                    attribute("key_arn"@, ExprView::String(self.kms_key_arn@)),
                ),
            ),
        )
    }

    /// Compiles the configuration into its block.
    pub fn compile(&self) -> (block: Block)
        ensures
            block@ == self.spec_block(),
    {
        Block::builder("encryption_config").add_block(
            Block::builder("provider").add_attribute(
                "key_arn",
                Expr::String(self.kms_key_arn.clone()),
            ).build(),
        ).build()
    }
}

/// The references to the `id` of each subnet's resource, in order.
pub open spec fn subnet_references(subnets: Seq<&Subnet>) -> Seq<ExprView> {
    Seq::new(
        subnets.len(),
        |i: int| ExprView::RawReference(reference("aws_subnet"@, subnets[i].name@, "id"@)),
    )
}

/// The `vpc_config` block of a cluster: the array of references to its subnets.
pub open spec fn vpc_config_view(subnets: Seq<&Subnet>) -> BlockView {
    BlockView::new("vpc_config"@).items(
        attribute("subnet_ids"@, ExprView::Array(subnet_references(subnets))),
    )
}

/// The body items of an optional encryption configuration: its nested block
/// when it is present, nothing when it is absent.
pub open spec fn optional_encryption(config: Option<EncryptionConfig>) -> Seq<StructureView> {
    match config {
        Some(c) => nested(c.spec_block()),
        None => Seq::empty(),
    }
}

fn vpc_config_block(subnets: &Vec<&Subnet>) -> (block: Block)
    ensures
        block@ == vpc_config_view(subnets@),
{
    let mut ids: Vec<Expr> = Vec::new();
    let mut i: usize = 0;
    while i < subnets.len()
        invariant
            i <= subnets@.len(),
            ids@.len() == i,
            forall|k: int| 0 <= k < i ==> (#[trigger] ids@[k])@ == subnet_references(subnets@)[k],
        decreases subnets@.len() - i,
    {
        ids.push(
            Expr::RawReference(reference_token("aws_subnet", subnets[i].name.as_str(), "id")),
        );
        i += 1;
    }
    let array = Expr::Array(ids);
    assert(array@->Array_0 =~= subnet_references(subnets@));
    Block::builder("vpc_config").add_attribute("subnet_ids", array).build()
}

fn add_optional_encryption(builder: Builder, config: &Option<EncryptionConfig>) -> (out:
    Builder)
    ensures
        out@ == builder@.items(optional_encryption(*config)),
{
    match config {
        Some(c) => builder.add_block(c.compile()),
        None => {
            assert(builder@.body + Seq::<StructureView>::empty() =~= builder@.body);
            builder
        },
    }
}

impl<'a> Cluster<'a> {
    /// The block that the cluster compiles to: a `resource` block labelled
    /// `aws_eks_cluster` and the cluster's name. The name comes first, then
    /// the role as a reference to the `arn` of the role's resource, then the
    /// nested `vpc_config` block with the references to the subnets, then
    /// each optional field that is present; the encryption configuration is
    /// a nested block.
    pub open spec fn spec_block(&self) -> BlockView {
        BlockView::new("resource"@).label("aws_eks_cluster"@).label(self.name@).items(
            attribute("name"@, ExprView::String(self.name@))
                + attribute(
                    "role_arn"@,
                    ExprView::RawReference(reference("aws_iam_role"@, self.role.name@, "arn"@)),
                )
                + nested(vpc_config_view(self.subnet_ids@))
                + optional_string("version"@, self.version)
                + optional_string("kubernetes_version"@, self.kubernetes_version)
                + optional_strings("enabled_cluster_log_types"@, self.enabled_cluster_log_types)
                + optional_bool("endpoint_private_access"@, self.endpoint_private_access)
                + optional_bool("endpoint_public_access"@, self.endpoint_public_access)
                + optional_encryption(self.encryption_config)
                + optional_tags(self.tags),
        )
    }

    /// Compiles the cluster into its block.
    pub fn compile(&self) -> (block: Block)
        ensures
            block@ == self.spec_block(),
    {
        let builder = Block::builder("resource").add_label("aws_eks_cluster").add_label(
            self.name.as_str(),
        ).add_attribute("name", Expr::String(self.name.clone())).add_attribute(
            "role_arn",
            Expr::RawReference(reference_token("aws_iam_role", self.role.name.as_str(), "arn")),
        ).add_block(vpc_config_block(&self.subnet_ids));
        let builder = add_optional_string(builder, "version", &self.version);
        let builder = add_optional_string(builder, "kubernetes_version", &self.kubernetes_version);
        let builder = add_optional_strings(
            builder,
            "enabled_cluster_log_types",
            &self.enabled_cluster_log_types,
        );
        let builder = add_optional_bool(
            builder,
            "endpoint_private_access",
            &self.endpoint_private_access,
        );
        let builder = add_optional_bool(
            builder,
            "endpoint_public_access",
            &self.endpoint_public_access,
        );
        let builder = add_optional_encryption(builder, &self.encryption_config);
        let builder = add_optional_tags(builder, &self.tags);
        let block = builder.build();
        assert(block@.labels =~= self.spec_block().labels);
        assert(block@.body =~= self.spec_block().body);
        block
    }
}

/// What the conversion gives is stated by the `ensures` of `from` itself.
impl<'a> vstd::std_specs::convert::FromSpecImpl<Cluster<'a>> for Block {
    open spec fn obeys_from_spec() -> bool {
        false
    }

    open spec fn from_spec(cluster: Cluster<'a>) -> Block {
        arbitrary()
    }
}

impl<'a> From<Cluster<'a>> for Block {
    /// Compiles the cluster into its block.
    fn from(cluster: Cluster<'a>) -> (block: Block)
        ensures
            block@ == cluster.spec_block(),
    {
        cluster.compile()
    }
}

/// The role of a cluster is a reference and not a literal: the attribute
/// `role_arn` holds the token that stands for the `arn` of the role's
/// resource. The subnets are references too: the nested `vpc_config` block,
/// the first nested block, holds one token for each subnet, in their order.
pub proof fn lemma_cluster_references(cluster: Cluster)
    ensures
        cluster.spec_block().value_of("role_arn"@) == Some(
            ExprView::RawReference(reference("aws_iam_role"@, cluster.role.name@, "arn"@)),
        ),
        cluster.spec_block().body[2] == nested(vpc_config_view(cluster.subnet_ids@))[0],
        vpc_config_view(cluster.subnet_ids@).value_of("subnet_ids"@) == Some(
            ExprView::Array(subnet_references(cluster.subnet_ids@)),
        ),
{
    reveal_strlit("name");
    reveal_strlit("role_arn");
    assert("name"@.len() == 4);
    assert("role_arn"@.len() == 8);
    let role = ExprView::RawReference(reference("aws_iam_role"@, cluster.role.name@, "arn"@));
    let body = cluster.spec_block().body;
    let first = attribute("name"@, ExprView::String(cluster.name@));
    assert(no_attribute_named(first, "role_arn"@));
    assert(body =~= first + attribute("role_arn"@, role) + body.subrange(2, body.len() as int));
    lemma_value_present(first, "role_arn"@, role, body.subrange(2, body.len() as int));
    let ids = ExprView::Array(subnet_references(cluster.subnet_ids@));
    assert(vpc_config_view(cluster.subnet_ids@).body =~= Seq::<StructureView>::empty() + attribute(
        "subnet_ids"@,
        ids,
    ) + Seq::<StructureView>::empty());
    lemma_value_present(Seq::empty(), "subnet_ids"@, ids, Seq::empty());
}

/// A cluster without optional fields compiles to a block with only the items
/// that every cluster has.
pub proof fn lemma_bare_cluster(cluster: Cluster)
    requires
        cluster.version is None,
        cluster.kubernetes_version is None,
        cluster.enabled_cluster_log_types is None,
        cluster.endpoint_private_access is None,
        cluster.endpoint_public_access is None,
        cluster.encryption_config is None,
        cluster.tags is None,
    ensures
        cluster.spec_block().body == (
            attribute("name"@, ExprView::String(cluster.name@))
            + attribute(
                "role_arn"@,
                ExprView::RawReference(reference("aws_iam_role"@, cluster.role.name@, "arn"@)),
            )
            + nested(vpc_config_view(cluster.subnet_ids@))
        ),
{
    assert(cluster.spec_block().body =~= (
        attribute("name"@, ExprView::String(cluster.name@))
        + attribute(
            "role_arn"@,
            ExprView::RawReference(reference("aws_iam_role"@, cluster.role.name@, "arn"@)),
        )
        + nested(vpc_config_view(cluster.subnet_ids@))
    ));
}

/// A cluster without tags compiles to a block without a `tags` attribute. With
/// tags, the block has the attribute `tags` with the object of the tags, which
/// is the empty object where the map is empty.
pub proof fn lemma_cluster_tags(cluster: Cluster)
    ensures
        cluster.tags is None ==> cluster.spec_block().value_of("tags"@) is None,
        cluster.tags is Some ==> cluster.spec_block().value_of("tags"@) == Some(
            tags_object(cluster.tags->Some_0@),
        ),
        cluster.tags is Some && cluster.tags->Some_0@.len() == 0 ==> cluster.spec_block().value_of(
            "tags"@,
        ) == Some(ExprView::Object(Seq::empty())),
{
    reveal_strlit("tags");
    reveal_strlit("enabled_cluster_log_types");
    reveal_strlit("endpoint_private_access");
    reveal_strlit("endpoint_public_access");
    reveal_strlit("kubernetes_version");
    reveal_strlit("name");
    reveal_strlit("role_arn");
    reveal_strlit("version");
    assert("tags"@.len() == 4 && "tags"@[0] == 't');
    assert("enabled_cluster_log_types"@.len() == 25);
    assert("endpoint_private_access"@.len() == 23);
    assert("endpoint_public_access"@.len() == 22);
    assert("kubernetes_version"@.len() == 18);
    assert("name"@[0] == 'n');
    assert("role_arn"@.len() == 8);
    assert("version"@.len() == 7);
    let so_far0 = Seq::<StructureView>::empty();
    assert(no_attribute_named(so_far0, "tags"@));
    let piece1 = attribute("name"@, ExprView::String(cluster.name@));
    let so_far1 = so_far0 + piece1;
    lemma_append_attributes(so_far0, piece1, "name"@, "tags"@);
    let piece2 = attribute(
        "role_arn"@,
        ExprView::RawReference(reference("aws_iam_role"@, cluster.role.name@, "arn"@)),
    );
    let so_far2 = so_far1 + piece2;
    lemma_append_attributes(so_far1, piece2, "role_arn"@, "tags"@);
    let piece3 = nested(vpc_config_view(cluster.subnet_ids@));
    let so_far3 = so_far2 + piece3;
    assert(no_attribute_named(piece3, "tags"@));
    lemma_no_attribute_in_concat(so_far2, piece3, "tags"@);
    let piece4 = optional_string("version"@, cluster.version);
    let so_far4 = so_far3 + piece4;
    lemma_append_attributes(so_far3, piece4, "version"@, "tags"@);
    let piece5 = optional_string("kubernetes_version"@, cluster.kubernetes_version);
    let so_far5 = so_far4 + piece5;
    lemma_append_attributes(so_far4, piece5, "kubernetes_version"@, "tags"@);
    let piece6 = optional_strings("enabled_cluster_log_types"@, cluster.enabled_cluster_log_types);
    let so_far6 = so_far5 + piece6;
    lemma_append_attributes(so_far5, piece6, "enabled_cluster_log_types"@, "tags"@);
    let piece7 = optional_bool("endpoint_private_access"@, cluster.endpoint_private_access);
    let so_far7 = so_far6 + piece7;
    lemma_append_attributes(so_far6, piece7, "endpoint_private_access"@, "tags"@);
    let piece8 = optional_bool("endpoint_public_access"@, cluster.endpoint_public_access);
    let so_far8 = so_far7 + piece8;
    lemma_append_attributes(so_far7, piece8, "endpoint_public_access"@, "tags"@);
    let piece9 = optional_encryption(cluster.encryption_config);
    let so_far9 = so_far8 + piece9;
    assert(no_attribute_named(piece9, "tags"@));
    lemma_no_attribute_in_concat(so_far8, piece9, "tags"@);
    lemma_tags_absent_or_present(cluster.tags);
    let rest = Seq::<StructureView>::empty();
    match cluster.tags {
        None => {
            lemma_no_attribute_in_concat(so_far9, rest, "tags"@);
            assert(cluster.spec_block().body =~= so_far9 + rest);
            lemma_value_absent(cluster.spec_block().body, "tags"@);
        },
        Some(tags) => {
            let object = tags_object(tags@);
            if tags@.len() == 0 {
                assert(object->Object_0 =~= Seq::empty());
            }
            assert(cluster.spec_block().body =~= so_far9 + attribute("tags"@, object) + rest);
            lemma_value_present(so_far9, "tags"@, object, rest);
        },
    }
}

/// The `vpc_config` block of a cluster is handed to the renderer as it is.
pub proof fn lemma_kept_vpc_config(subnets: Seq<&Subnet>)
    ensures
        is_kept_block(vpc_config_view(subnets)),
{
    reveal_strlit("vpc_config");
    reveal_strlit("subnet_ids");
    let ids = subnet_references(subnets);
    assert forall|i: int| 0 <= i < ids.len() implies is_kept_expression(#[trigger] ids[i]) by {
        assert(ids[i] is RawReference);
    }
    assert(is_kept_expression(ExprView::Array(ids)));
}

/// The block of an encryption configuration is handed to the renderer as it is.
pub proof fn lemma_kept_encryption(config: EncryptionConfig)
    ensures
        is_kept_block(config.spec_block()),
{
    reveal_strlit("encryption_config");
    reveal_strlit("provider");
    reveal_strlit("key_arn");
    let provider = BlockView::new("provider"@).items(
        attribute("key_arn"@, ExprView::String(config.kms_key_arn@)),
    );
    assert(is_kept_block(provider));
    assert(config.spec_block().body[0] == StructureView::Block(provider));
}

/// The block that a cluster compiles to is handed to the renderer as it is:
/// its block type and its keys are plain identifiers, and the tags have no key
/// twice.
pub proof fn lemma_cluster_is_kept(cluster: Cluster)
    requires
        cluster.tags is Some ==> distinct_keys(cluster.tags->Some_0@),
    ensures
        is_kept_block(cluster.spec_block()),
        lowered_block(cluster.spec_block()) == cluster.spec_block(),
{
    reveal_strlit("resource");
    reveal_strlit("enabled_cluster_log_types");
    reveal_strlit("endpoint_private_access");
    reveal_strlit("endpoint_public_access");
    reveal_strlit("kubernetes_version");
    reveal_strlit("name");
    reveal_strlit("role_arn");
    reveal_strlit("tags");
    reveal_strlit("version");
    let so_far0 = Seq::<StructureView>::empty();
    let piece1 = attribute("name"@, ExprView::String(cluster.name@));
    assert(all_kept(piece1));
    let so_far1 = so_far0 + piece1;
    lemma_kept_concat(so_far0, piece1);
    let piece2 = attribute(
        "role_arn"@,
        ExprView::RawReference(reference("aws_iam_role"@, cluster.role.name@, "arn"@)),
    );
    assert(all_kept(piece2));
    let so_far2 = so_far1 + piece2;
    lemma_kept_concat(so_far1, piece2);
    let piece3 = nested(vpc_config_view(cluster.subnet_ids@));
    lemma_kept_vpc_config(cluster.subnet_ids@);
    assert(all_kept(piece3));
    let so_far3 = so_far2 + piece3;
    lemma_kept_concat(so_far2, piece3);
    let piece4 = optional_string("version"@, cluster.version);
    assert(all_kept(piece4));
    let so_far4 = so_far3 + piece4;
    lemma_kept_concat(so_far3, piece4);
    let piece5 = optional_string("kubernetes_version"@, cluster.kubernetes_version);
    assert(all_kept(piece5));
    let so_far5 = so_far4 + piece5;
    lemma_kept_concat(so_far4, piece5);
    let piece6 = optional_strings("enabled_cluster_log_types"@, cluster.enabled_cluster_log_types);
    if let Some(list) = cluster.enabled_cluster_log_types {
        lemma_kept_strings(strings_view(list@));
    }
    assert(all_kept(piece6));
    let so_far6 = so_far5 + piece6;
    lemma_kept_concat(so_far5, piece6);
    let piece7 = optional_bool("endpoint_private_access"@, cluster.endpoint_private_access);
    assert(all_kept(piece7));
    let so_far7 = so_far6 + piece7;
    lemma_kept_concat(so_far6, piece7);
    let piece8 = optional_bool("endpoint_public_access"@, cluster.endpoint_public_access);
    assert(all_kept(piece8));
    let so_far8 = so_far7 + piece8;
    lemma_kept_concat(so_far7, piece8);
    let piece9 = optional_encryption(cluster.encryption_config);
    if let Some(config) = cluster.encryption_config {
        lemma_kept_encryption(config);
    }
    assert(all_kept(piece9));
    let so_far9 = so_far8 + piece9;
    lemma_kept_concat(so_far8, piece9);
    let piece10 = optional_tags(cluster.tags);
    if let Some(tags) = cluster.tags {
        lemma_kept_tags(tags@);
    }
    assert(all_kept(piece10));
    let so_far10 = so_far9 + piece10;
    lemma_kept_concat(so_far9, piece10);
    assert(cluster.spec_block().body =~= so_far10);
    lemma_kept_block(cluster.spec_block());
}

} // verus!
