//! Subnets of a virtual private cloud.

use crate::aws::availability_zone::AvailabilityZone;
use crate::aws::emit::{
    add_optional_bool, add_optional_string, add_optional_tags, lemma_append_attributes,
    lemma_no_attribute_in_concat, lemma_tags_absent_or_present, optional_bool, optional_string,
    optional_tags, reference, reference_token, tags_object,
};
use crate::aws::network::cidr;
use crate::aws::network::vpc::Vpc;
use crate::aws::tags::{distinct_keys, Tags};
use crate::ir::{
    attribute, lemma_value_absent, lemma_value_present, no_attribute_named, Block, BlockView,
    Builder, Expr, ExprView, StructureView,
};
use crate::lowering::{
    all_kept, is_kept_block, lemma_kept_block, lemma_kept_concat, lemma_kept_tags, lowered_block,
};
use vstd::prelude::*;

verus! {

/// A subnet of a virtual private cloud.
#[derive(Debug, Clone)]
pub struct Subnet<'a> {
    /// The name of the subnet.
    pub name: String,
    /// The network that the subnet belongs to.
    pub vpc: &'a Vpc,
    /// The IPv4 range of the subnet.
    pub cidr_block: cidr::Block,
    /// The availability zone of the subnet.
    pub availability_zone: Option<AvailabilityZone>,
    /// Whether network interfaces created in the subnet get an IPv6 address.
    pub assign_ipv6_address_on_creation: Option<bool>,
    /// The IPv6 range of the subnet, in CIDR notation.
    pub ipv6_cidr_block: Option<String>,
    /// Whether instances launched into the subnet get a public address.
    pub map_public_ip_on_launch: Option<bool>,
    /// The tags of the subnet.
    pub tags: Option<Tags>,
}

/// The body items of an optional availability zone: one attribute with the
/// zone's identifier when it is present, nothing when it is absent.
pub open spec fn optional_zone(zone: Option<AvailabilityZone>) -> Seq<StructureView> {
    match zone {
        Some(az) => attribute("availability_zone"@, ExprView::String(az.spec_name())),
        None => Seq::empty(),
    }
}

fn add_optional_zone(builder: Builder, zone: &Option<AvailabilityZone>) -> (out: Builder)
    ensures
        out@ == builder@.items(optional_zone(*zone)),
{
    match zone {
        Some(az) => builder.add_attribute("availability_zone", Expr::String(az.to_string())),
        None => {
            assert(builder@.body + Seq::<StructureView>::empty() =~= builder@.body);
            builder
        },
    }
}

impl<'a> Subnet<'a> {
    /// The block that the subnet compiles to: a `resource` block labelled
    /// `aws_subnet` and the subnet's name. Its network is a reference to the
    /// `id` of the network's resource, not a literal; the range follows, and
    /// then each optional field that is present.
    pub open spec fn spec_block(&self) -> BlockView {
        BlockView::new("resource"@).label("aws_subnet"@).label(self.name@).items(
            attribute(
                "vpc_id"@,
                ExprView::RawReference(reference("aws_vpc"@, self.vpc.name@, "id"@)),
            )
                + attribute("cidr_block"@, ExprView::String(self.cidr_block.spec_notation()))
                + optional_zone(self.availability_zone)
                + optional_bool(
                    "assign_ipv6_address_on_creation"@,
                    self.assign_ipv6_address_on_creation,
                )
                + optional_string("ipv6_cidr_block"@, self.ipv6_cidr_block)
                + optional_bool("map_public_ip_on_launch"@, self.map_public_ip_on_launch)
                + optional_tags(self.tags),
        )
    }

    /// Compiles the subnet into its block.
    pub fn compile(&self) -> (block: Block)
        ensures
            block@ == self.spec_block(),
    {
        let builder = Block::builder("resource").add_label("aws_subnet").add_label(
            self.name.as_str(),
        ).add_attribute(
            "vpc_id",
            Expr::RawReference(reference_token("aws_vpc", self.vpc.name.as_str(), "id")),
        ).add_attribute("cidr_block", Expr::String(self.cidr_block.to_string()));
        let builder = add_optional_zone(builder, &self.availability_zone);
        let builder = add_optional_bool(
            builder,
            "assign_ipv6_address_on_creation",
            &self.assign_ipv6_address_on_creation,
        );
        let builder = add_optional_string(builder, "ipv6_cidr_block", &self.ipv6_cidr_block);
        let builder = add_optional_bool(
            builder,
            "map_public_ip_on_launch",
            &self.map_public_ip_on_launch,
        );
        let builder = add_optional_tags(builder, &self.tags);
        let block = builder.build();
        assert(block@.labels =~= self.spec_block().labels);
        assert(block@.body =~= self.spec_block().body);
        block
    }
}

/// What the conversion gives is stated by the `ensures` of `from` itself.
impl<'a> vstd::std_specs::convert::FromSpecImpl<Subnet<'a>> for Block {
    open spec fn obeys_from_spec() -> bool {
        false
    }

    open spec fn from_spec(subnet: Subnet<'a>) -> Block {
        arbitrary()
    }
}

impl<'a> From<Subnet<'a>> for Block {
    /// Compiles the subnet into its block.
    fn from(subnet: Subnet<'a>) -> (block: Block)
        ensures
            block@ == subnet.spec_block(),
    {
        subnet.compile()
    }
}

/// The network of a subnet is a reference and not a literal: the attribute
/// `vpc_id` holds the token that stands for the `id` of the network's
/// resource, which is the network's resource name between `${` and `.id}`.
pub proof fn lemma_subnet_references_network(subnet: Subnet)
    ensures
        subnet.spec_block().value_of("vpc_id"@) == Some(
            ExprView::RawReference(reference("aws_vpc"@, subnet.vpc.name@, "id"@)),
        ),
        reference("aws_vpc"@, subnet.vpc.name@, "id"@) == "${"@ + subnet.vpc.spec_resource_name()
            + ".id}"@,
{
    let token = reference("aws_vpc"@, subnet.vpc.name@, "id"@);
    let body = subnet.spec_block().body;
    let first = attribute("vpc_id"@, ExprView::RawReference(token));
    let after = body.subrange(1, body.len() as int);
    assert(body =~= Seq::<StructureView>::empty() + first + after);
    lemma_value_present(Seq::empty(), "vpc_id"@, ExprView::RawReference(token), after);
    reveal_strlit("aws_vpc");
    reveal_strlit("aws_vpc.");
    reveal_strlit(".");
    reveal_strlit("id");
    reveal_strlit("}");
    reveal_strlit(".id}");
    assert("aws_vpc."@ =~= "aws_vpc"@ + "."@);
    assert(".id}"@ =~= "."@ + "id"@ + "}"@);
    assert(token =~= "${"@ + subnet.vpc.spec_resource_name() + ".id}"@);
}

/// A subnet without optional fields compiles to a block with only the items
/// that every subnet has.
pub proof fn lemma_bare_subnet(subnet: Subnet)
    requires
        subnet.availability_zone is None,
        subnet.assign_ipv6_address_on_creation is None,
        subnet.ipv6_cidr_block is None,
        subnet.map_public_ip_on_launch is None,
        subnet.tags is None,
    ensures
        subnet.spec_block().body == (
            attribute(
                "vpc_id"@,
                ExprView::RawReference(reference("aws_vpc"@, subnet.vpc.name@, "id"@)),
            )
            + attribute("cidr_block"@, ExprView::String(subnet.cidr_block.spec_notation()))
        ),
{
    assert(subnet.spec_block().body =~= (
        attribute(
            "vpc_id"@,
            ExprView::RawReference(reference("aws_vpc"@, subnet.vpc.name@, "id"@)),
        )
        + attribute("cidr_block"@, ExprView::String(subnet.cidr_block.spec_notation()))
    ));
}

/// A subnet without tags compiles to a block without a `tags` attribute. With
/// tags, the block has the attribute `tags` with the object of the tags, which
/// is the empty object where the map is empty.
pub proof fn lemma_subnet_tags(subnet: Subnet)
    ensures
        subnet.tags is None ==> subnet.spec_block().value_of("tags"@) is None,
        subnet.tags is Some ==> subnet.spec_block().value_of("tags"@) == Some(
            tags_object(subnet.tags->Some_0@),
        ),
        subnet.tags is Some && subnet.tags->Some_0@.len() == 0 ==> subnet.spec_block().value_of(
            "tags"@,
        ) == Some(ExprView::Object(Seq::empty())),
{
    reveal_strlit("tags");
    reveal_strlit("assign_ipv6_address_on_creation");
    reveal_strlit("availability_zone");
    reveal_strlit("cidr_block");
    reveal_strlit("ipv6_cidr_block");
    reveal_strlit("map_public_ip_on_launch");
    reveal_strlit("vpc_id");
    assert("tags"@.len() == 4 && "tags"@[0] == 't');
    assert("assign_ipv6_address_on_creation"@.len() == 31);
    assert("availability_zone"@.len() == 17);
    assert("cidr_block"@.len() == 10);
    assert("ipv6_cidr_block"@.len() == 15);
    assert("map_public_ip_on_launch"@.len() == 23);
    assert("vpc_id"@.len() == 6);
    let so_far0 = Seq::<StructureView>::empty();
    assert(no_attribute_named(so_far0, "tags"@));
    let piece1 = attribute(
        "vpc_id"@,
        ExprView::RawReference(reference("aws_vpc"@, subnet.vpc.name@, "id"@)),
    );
    let so_far1 = so_far0 + piece1;
    lemma_append_attributes(so_far0, piece1, "vpc_id"@, "tags"@);
    let piece2 = attribute("cidr_block"@, ExprView::String(subnet.cidr_block.spec_notation()));
    let so_far2 = so_far1 + piece2;
    lemma_append_attributes(so_far1, piece2, "cidr_block"@, "tags"@);
    let piece3 = optional_zone(subnet.availability_zone);
    let so_far3 = so_far2 + piece3;
    lemma_append_attributes(so_far2, piece3, "availability_zone"@, "tags"@);
    let piece4 = optional_bool(
        "assign_ipv6_address_on_creation"@,
        subnet.assign_ipv6_address_on_creation,
    );
    let so_far4 = so_far3 + piece4;
    lemma_append_attributes(so_far3, piece4, "assign_ipv6_address_on_creation"@, "tags"@);
    let piece5 = optional_string("ipv6_cidr_block"@, subnet.ipv6_cidr_block);
    let so_far5 = so_far4 + piece5;
    lemma_append_attributes(so_far4, piece5, "ipv6_cidr_block"@, "tags"@);
    let piece6 = optional_bool("map_public_ip_on_launch"@, subnet.map_public_ip_on_launch);
    let so_far6 = so_far5 + piece6;
    lemma_append_attributes(so_far5, piece6, "map_public_ip_on_launch"@, "tags"@);
    lemma_tags_absent_or_present(subnet.tags);
    let rest = Seq::<StructureView>::empty();
    match subnet.tags {
        None => {
            lemma_no_attribute_in_concat(so_far6, rest, "tags"@);
            assert(subnet.spec_block().body =~= so_far6 + rest);
            lemma_value_absent(subnet.spec_block().body, "tags"@);
        },
        Some(tags) => {
            let object = tags_object(tags@);
            if tags@.len() == 0 {
                assert(object->Object_0 =~= Seq::empty());
            }
            assert(subnet.spec_block().body =~= so_far6 + attribute("tags"@, object) + rest);
            lemma_value_present(so_far6, "tags"@, object, rest);
        },
    }
}

/// The block that a subnet compiles to is handed to the renderer as it is: its
/// block type and its keys are plain identifiers, and the tags have no key
/// twice.
pub proof fn lemma_subnet_is_kept(subnet: Subnet)
    requires
        subnet.tags is Some ==> distinct_keys(subnet.tags->Some_0@),
    ensures
        is_kept_block(subnet.spec_block()),
        lowered_block(subnet.spec_block()) == subnet.spec_block(),
{
    reveal_strlit("resource");
    reveal_strlit("assign_ipv6_address_on_creation");
    reveal_strlit("availability_zone");
    reveal_strlit("cidr_block");
    reveal_strlit("ipv6_cidr_block");
    reveal_strlit("map_public_ip_on_launch");
    reveal_strlit("tags");
    reveal_strlit("vpc_id");
    let so_far0 = Seq::<StructureView>::empty();
    let piece1 = attribute(
        "vpc_id"@,
        ExprView::RawReference(reference("aws_vpc"@, subnet.vpc.name@, "id"@)),
    );
    assert(all_kept(piece1));
    let so_far1 = so_far0 + piece1;
    lemma_kept_concat(so_far0, piece1);
    let piece2 = attribute("cidr_block"@, ExprView::String(subnet.cidr_block.spec_notation()));
    assert(all_kept(piece2));
    let so_far2 = so_far1 + piece2;
    lemma_kept_concat(so_far1, piece2);
    let piece3 = optional_zone(subnet.availability_zone);
    assert(all_kept(piece3));
    let so_far3 = so_far2 + piece3;
    lemma_kept_concat(so_far2, piece3);
    let piece4 = optional_bool(
        "assign_ipv6_address_on_creation"@,
        subnet.assign_ipv6_address_on_creation,
    );
    assert(all_kept(piece4));
    let so_far4 = so_far3 + piece4;
    lemma_kept_concat(so_far3, piece4);
    let piece5 = optional_string("ipv6_cidr_block"@, subnet.ipv6_cidr_block);
    assert(all_kept(piece5));
    let so_far5 = so_far4 + piece5;
    lemma_kept_concat(so_far4, piece5);
    let piece6 = optional_bool("map_public_ip_on_launch"@, subnet.map_public_ip_on_launch);
    assert(all_kept(piece6));
    let so_far6 = so_far5 + piece6;
    lemma_kept_concat(so_far5, piece6);
    let piece7 = optional_tags(subnet.tags);
    if let Some(tags) = subnet.tags {
        lemma_kept_tags(tags@);
    }
    assert(all_kept(piece7));
    let so_far7 = so_far6 + piece7;
    lemma_kept_concat(so_far6, piece7);
    assert(subnet.spec_block().body =~= so_far7);
    lemma_kept_block(subnet.spec_block());
}

} // verus!
