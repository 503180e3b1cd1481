//! NAT gateways and their read-only lookup.

use crate::aws::emit::{
    add_optional_string, add_optional_tags, filter_block, filter_view, lemma_append_attributes,
    lemma_no_attribute_in_concat, lemma_tags_absent_or_present, optional_string, optional_tags,
    reference, reference_token, tags_object,
};
use crate::aws::network::subnet::Subnet;
use crate::aws::network::vpc::{ElasticIp, Vpc};
use crate::aws::tags::{distinct_keys, Tags};
use crate::ir::{
    attribute, lemma_blocks_after_attributes, lemma_value_absent, lemma_value_present, nested_all,
    no_attribute_named, strings_view, Block, BlockView, Builder, Expr, ExprView, StructureView,
};
use crate::lowering::{
    all_kept, is_kept_block, is_kept_structure, lemma_kept_block, lemma_kept_concat,
    lemma_kept_filter, lemma_kept_tags, lowered_block,
};
use vstd::prelude::*;

verus! {

/// The second label of a NAT gateway block: the identifier where there is
/// one, `nat` otherwise.
pub open spec fn nat_label(id: Option<String>) -> Seq<char> {
    match id {
        Some(id) => id@,
        None => "nat"@,
    }
}

/// A NAT gateway.
#[derive(Debug, Clone)]
pub struct NAT<'a> {
    /// The identifier of the gateway.
    pub id: Option<String>,
    /// The network in which the gateway lives.
    pub vpc: &'a Vpc,
    /// The subnet in which the gateway lives.
    pub subnet: &'a Subnet<'a>,
    /// The elastic IP address of the gateway.
    pub elastic_ip: &'a ElasticIp,
    /// Whether the gateway is private or public.
    pub connectivity_type: Option<String>,
    /// The tags of the gateway.
    pub tags: Option<Tags>,
    /// The state of the gateway.
    pub state: Option<String>,
}

impl<'a> NAT<'a> {
    /// The block that the gateway compiles to: a `resource` block labelled
    /// `aws_nat_gateway` and the identifier, or `nat` where there is none.
    /// Its subnet and its address are references to the `id` of the subnet's
    /// and of the elastic IP's resource; the connectivity type, the state
    /// and the tags follow where they are present.
    pub open spec fn spec_block(&self) -> BlockView {
        BlockView::new("resource"@).label("aws_nat_gateway"@).label(nat_label(self.id)).items(
            attribute(
                "subnet_id"@,
                ExprView::RawReference(reference("aws_subnet"@, self.subnet.name@, "id"@)),
            )
                + attribute(
                    "allocation_id"@,
                    ExprView::RawReference(reference("aws_eip"@, self.elastic_ip.name@, "id"@)),
                )
                + optional_string("connectivity_type"@, self.connectivity_type)
                + optional_string("state"@, self.state)
                + optional_tags(self.tags),
        )
    }

    /// Compiles the gateway into its block.
    pub fn compile(&self) -> (block: Block)
        ensures
            block@ == self.spec_block(),
    {
        let label = match &self.id {
            Some(id) => id.as_str(),
            None => "nat",
        };
        let builder = Block::builder("resource").add_label("aws_nat_gateway").add_label(
            label,
        ).add_attribute(
            "subnet_id",
            Expr::RawReference(reference_token("aws_subnet", self.subnet.name.as_str(), "id")),
        ).add_attribute(
            "allocation_id",
            Expr::RawReference(reference_token("aws_eip", self.elastic_ip.name.as_str(), "id")),
        );
        let builder = add_optional_string(builder, "connectivity_type", &self.connectivity_type);
        let builder = add_optional_string(builder, "state", &self.state);
        let builder = add_optional_tags(builder, &self.tags);
        let block = builder.build();
        assert(block@.labels =~= self.spec_block().labels);
        assert(block@.body =~= self.spec_block().body);
        block
    }
}

/// What the conversion gives is stated by the `ensures` of `from` itself.
impl<'a> vstd::std_specs::convert::FromSpecImpl<NAT<'a>> for Block {
    open spec fn obeys_from_spec() -> bool {
        false
    }

    open spec fn from_spec(gateway: NAT<'a>) -> Block {
        arbitrary()
    }
}

impl<'a> From<NAT<'a>> for Block {
    /// Compiles the gateway into its block.
    fn from(gateway: NAT<'a>) -> (block: Block)
        ensures
            block@ == gateway.spec_block(),
    {
        gateway.compile()
    }
}

/// The read-only lookup of a NAT gateway.
#[derive(Debug, Clone)]
pub struct NATDataSource {
    /// The filters that narrow the lookup.
    pub filter: Option<Vec<Filter>>,
    /// The identifier of the gateway.
    pub id: Option<String>,
    /// The state that the gateway must be in.
    pub state: Option<String>,
    /// The subnet in which the gateway lives.
    pub subnet_id: Option<String>,
    /// The tags that the gateway must have.
    pub tags: Option<Tags>,
    /// The network in which the gateway lives.
    pub vpc_id: Option<String>,
}

/// A name and the values it may take, by which a lookup is narrowed.
#[derive(Debug, Clone)]
pub struct Filter {
    /// The name of the field to filter by.
    pub name: String,
    /// The values that the field may have.
    pub values: Vec<String>,
}

impl Filter {
    /// The `filter` block that the filter compiles to.
    pub open spec fn spec_block(&self) -> BlockView {
        filter_view(self.name@, strings_view(self.values@))
    }

    /// Compiles the filter into its block.
    pub fn compile(&self) -> (block: Block)
        ensures
            block@ == self.spec_block(),
    {
        filter_block(&self.name, &self.values)
    }
}

/// The blocks of a list of filters, one for each filter, in the order of the list.
pub open spec fn filter_views(filters: Seq<Filter>) -> Seq<BlockView> {
    Seq::new(filters.len(), |i: int| filters[i].spec_block())
}

/// The body items of an optional list of filters: one nested `filter` block
/// for each filter, in the order of the list, and nothing when the list is
/// absent.
pub open spec fn optional_filters(filters: Option<Vec<Filter>>) -> Seq<StructureView> {
    match filters {
        Some(list) => nested_all(filter_views(list@)),
        None => Seq::empty(),
    }
}

/// Adds the nested blocks of an optional list of filters.
pub fn add_optional_filters(builder: Builder, filters: &Option<Vec<Filter>>) -> (out:
    Builder)
    ensures
        out@ == builder@.items(optional_filters(*filters)),
{
    match filters {
        Some(list) => {
            let mut blocks: Vec<Block> = Vec::new();
            let mut i: usize = 0;
            while i < list.len()
                invariant
                    i <= list@.len(),
                    blocks@.len() == i,
                    forall|k: int| 0 <= k < i ==> (#[trigger] blocks@[k])@ == list@[k].spec_block(),
                decreases list@.len() - i,
            {
                blocks.push(list[i].compile());
                i += 1;
            }
            assert(crate::ir::blocks_view(blocks@) =~= filter_views(list@));
            builder.add_blocks(blocks)
        },
        None => {
            assert(builder@.body + Seq::<StructureView>::empty() =~= builder@.body);
            builder
        },
    }
}

impl NATDataSource {
    /// The block that the lookup compiles to: a `data` block labelled
    /// `aws_nat_gateway` and the identifier, or `nat` where there is none,
    /// with each field that is present and then one nested block for each
    /// filter.
    pub open spec fn spec_block(&self) -> BlockView {
        BlockView::new("data"@).label("aws_nat_gateway"@).label(nat_label(self.id)).items(
            optional_string("id"@, self.id)
                + optional_string("subnet_id"@, self.subnet_id)
                + optional_string("vpc_id"@, self.vpc_id)
                + optional_string("state"@, self.state)
                + optional_tags(self.tags)
                + optional_filters(self.filter),
        )
    }

    /// Compiles the lookup into its block.
    pub fn compile(&self) -> (block: Block)
        ensures
            block@ == self.spec_block(),
    {
        let label = match &self.id {
            Some(id) => id.as_str(),
            None => "nat",
        };
        let builder = Block::builder("data").add_label("aws_nat_gateway").add_label(label);
        let builder = add_optional_string(builder, "id", &self.id);
        let builder = add_optional_string(builder, "subnet_id", &self.subnet_id);
        let builder = add_optional_string(builder, "vpc_id", &self.vpc_id);
        let builder = add_optional_string(builder, "state", &self.state);
        let builder = add_optional_tags(builder, &self.tags);
        let builder = add_optional_filters(builder, &self.filter);
        let block = builder.build();
        assert(block@.labels =~= self.spec_block().labels);
        assert(block@.body =~= self.spec_block().body);
        block
    }
}

/// What the conversion gives is stated by the `ensures` of `from` itself.
impl vstd::std_specs::convert::FromSpecImpl<NATDataSource> for Block {
    open spec fn obeys_from_spec() -> bool {
        false
    }

    open spec fn from_spec(data_source: NATDataSource) -> Block {
        arbitrary()
    }
}

impl From<NATDataSource> for Block {
    /// Compiles the lookup into its block.
    fn from(data_source: NATDataSource) -> (block: Block)
        ensures
            block@ == data_source.spec_block(),
    {
        data_source.compile()
    }
}

/// The subnet and the address of a NAT gateway are references and not
/// literals: the attributes `subnet_id` and `allocation_id` hold the tokens
/// that stand for the `id` of the subnet's and of the elastic IP's resource.
pub proof fn lemma_nat_gateway_references(gateway: NAT)
    ensures
        gateway.spec_block().value_of("subnet_id"@) == Some(
            ExprView::RawReference(reference("aws_subnet"@, gateway.subnet.name@, "id"@)),
        ),
        gateway.spec_block().value_of("allocation_id"@) == Some(
            ExprView::RawReference(reference("aws_eip"@, gateway.elastic_ip.name@, "id"@)),
        ),
{
    reveal_strlit("subnet_id");
    reveal_strlit("allocation_id");
    assert("subnet_id"@.len() == 9);
    assert("allocation_id"@.len() == 13);
    let subnet = ExprView::RawReference(reference("aws_subnet"@, gateway.subnet.name@, "id"@));
    let address = ExprView::RawReference(reference("aws_eip"@, gateway.elastic_ip.name@, "id"@));
    let body = gateway.spec_block().body;
    let first = attribute("subnet_id"@, subnet);
    assert(body =~= Seq::<StructureView>::empty() + first + body.subrange(1, body.len() as int));
    lemma_value_present(Seq::empty(), "subnet_id"@, subnet, body.subrange(1, body.len() as int));
    assert(no_attribute_named(first, "allocation_id"@));
    assert(body =~= first + attribute("allocation_id"@, address) + body.subrange(
        2,
        body.len() as int,
    ));
    lemma_value_present(first, "allocation_id"@, address, body.subrange(2, body.len() as int));
}

/// A NAT gateway without optional fields compiles to a block with only the
/// items that every NAT gateway has.
pub proof fn lemma_bare_nat_gateway(gateway: NAT)
    requires
        gateway.connectivity_type is None,
        gateway.state is None,
        gateway.tags is None,
    ensures
        gateway.spec_block().body == (
            attribute(
                "subnet_id"@,
                ExprView::RawReference(reference("aws_subnet"@, gateway.subnet.name@, "id"@)),
            )
            + attribute(
                "allocation_id"@,
                ExprView::RawReference(reference("aws_eip"@, gateway.elastic_ip.name@, "id"@)),
            )
        ),
{
    assert(gateway.spec_block().body =~= (
        attribute(
            "subnet_id"@,
            ExprView::RawReference(reference("aws_subnet"@, gateway.subnet.name@, "id"@)),
        )
        + attribute(
            "allocation_id"@,
            ExprView::RawReference(reference("aws_eip"@, gateway.elastic_ip.name@, "id"@)),
        )
    ));
}

/// A NAT gateway without tags compiles to a block without a `tags` attribute.
/// With tags, the block has the attribute `tags` with the object of the tags,
/// which is the empty object where the map is empty.
pub proof fn lemma_nat_gateway_tags(gateway: NAT)
    ensures
        gateway.tags is None ==> gateway.spec_block().value_of("tags"@) is None,
        gateway.tags is Some ==> gateway.spec_block().value_of("tags"@) == Some(
            tags_object(gateway.tags->Some_0@),
        ),
        gateway.tags is Some && gateway.tags->Some_0@.len() == 0 ==> gateway.spec_block().value_of(
            "tags"@,
        ) == Some(ExprView::Object(Seq::empty())),
{
    reveal_strlit("tags");
    reveal_strlit("allocation_id");
    reveal_strlit("connectivity_type");
    reveal_strlit("state");
    reveal_strlit("subnet_id");
    assert("tags"@.len() == 4 && "tags"@[0] == 't');
    assert("allocation_id"@.len() == 13);
    assert("connectivity_type"@.len() == 17);
    assert("state"@.len() == 5);
    assert("subnet_id"@.len() == 9);
    let so_far0 = Seq::<StructureView>::empty();
    assert(no_attribute_named(so_far0, "tags"@));
    let piece1 = attribute(
        "subnet_id"@,
        ExprView::RawReference(reference("aws_subnet"@, gateway.subnet.name@, "id"@)),
    );
    let so_far1 = so_far0 + piece1;
    lemma_append_attributes(so_far0, piece1, "subnet_id"@, "tags"@);
    let piece2 = attribute(
        "allocation_id"@,
        ExprView::RawReference(reference("aws_eip"@, gateway.elastic_ip.name@, "id"@)),
    );
    let so_far2 = so_far1 + piece2;
    lemma_append_attributes(so_far1, piece2, "allocation_id"@, "tags"@);
    let piece3 = optional_string("connectivity_type"@, gateway.connectivity_type);
    let so_far3 = so_far2 + piece3;
    lemma_append_attributes(so_far2, piece3, "connectivity_type"@, "tags"@);
    let piece4 = optional_string("state"@, gateway.state);
    let so_far4 = so_far3 + piece4;
    lemma_append_attributes(so_far3, piece4, "state"@, "tags"@);
    lemma_tags_absent_or_present(gateway.tags);
    let rest = Seq::<StructureView>::empty();
    match gateway.tags {
        None => {
            lemma_no_attribute_in_concat(so_far4, rest, "tags"@);
            assert(gateway.spec_block().body =~= so_far4 + rest);
            lemma_value_absent(gateway.spec_block().body, "tags"@);
        },
        Some(tags) => {
            let object = tags_object(tags@);
            if tags@.len() == 0 {
                assert(object->Object_0 =~= Seq::empty());
            }
            assert(gateway.spec_block().body =~= so_far4 + attribute("tags"@, object) + rest);
            lemma_value_present(so_far4, "tags"@, object, rest);
        },
    }
}

/// A lookup of a NAT gateway without optional fields compiles to a block with
/// an empty body.
pub proof fn lemma_bare_nat_data_source(lookup: NATDataSource)
    requires
        lookup.id is None,
        lookup.subnet_id is None,
        lookup.vpc_id is None,
        lookup.state is None,
        lookup.tags is None,
        lookup.filter is None,
    ensures
        lookup.spec_block().body == Seq::<StructureView>::empty(),
{
    assert(lookup.spec_block().body =~= Seq::<StructureView>::empty());
}

/// A lookup of a NAT gateway without tags compiles to a block without a `tags`
/// attribute. With tags, the block has the attribute `tags` with the object of
/// the tags, which is the empty object where the map is empty.
pub proof fn lemma_nat_data_source_tags(lookup: NATDataSource)
    ensures
        lookup.tags is None ==> lookup.spec_block().value_of("tags"@) is None,
        lookup.tags is Some ==> lookup.spec_block().value_of("tags"@) == Some(
            tags_object(lookup.tags->Some_0@),
        ),
        lookup.tags is Some && lookup.tags->Some_0@.len() == 0 ==> lookup.spec_block().value_of(
            "tags"@,
        ) == Some(ExprView::Object(Seq::empty())),
{
    reveal_strlit("tags");
    reveal_strlit("id");
    reveal_strlit("state");
    reveal_strlit("subnet_id");
    reveal_strlit("vpc_id");
    assert("tags"@.len() == 4 && "tags"@[0] == 't');
    assert("id"@.len() == 2);
    assert("state"@.len() == 5);
    assert("subnet_id"@.len() == 9);
    assert("vpc_id"@.len() == 6);
    let so_far0 = Seq::<StructureView>::empty();
    assert(no_attribute_named(so_far0, "tags"@));
    let piece1 = optional_string("id"@, lookup.id);
    let so_far1 = so_far0 + piece1;
    lemma_append_attributes(so_far0, piece1, "id"@, "tags"@);
    let piece2 = optional_string("subnet_id"@, lookup.subnet_id);
    let so_far2 = so_far1 + piece2;
    lemma_append_attributes(so_far1, piece2, "subnet_id"@, "tags"@);
    let piece3 = optional_string("vpc_id"@, lookup.vpc_id);
    let so_far3 = so_far2 + piece3;
    lemma_append_attributes(so_far2, piece3, "vpc_id"@, "tags"@);
    let piece4 = optional_string("state"@, lookup.state);
    let so_far4 = so_far3 + piece4;
    lemma_append_attributes(so_far3, piece4, "state"@, "tags"@);
    lemma_tags_absent_or_present(lookup.tags);
    let rest = optional_filters(lookup.filter);
    let blocks = match lookup.filter {
        Some(list) => filter_views(list@),
        None => Seq::<BlockView>::empty(),
    };
    assert(rest =~= nested_all(blocks));
    assert(no_attribute_named(rest, "tags"@));
    match lookup.tags {
        None => {
            lemma_no_attribute_in_concat(so_far4, rest, "tags"@);
            assert(lookup.spec_block().body =~= so_far4 + rest);
            lemma_value_absent(lookup.spec_block().body, "tags"@);
        },
        Some(tags) => {
            let object = tags_object(tags@);
            if tags@.len() == 0 {
                assert(object->Object_0 =~= Seq::empty());
            }
            assert(lookup.spec_block().body =~= so_far4 + attribute("tags"@, object) + rest);
            lemma_value_present(so_far4, "tags"@, object, rest);
        },
    }
}

/// The nested blocks of the block that the lookup of a NAT gateway compiles to
/// are the blocks of its filters, one for each filter and in the order of the
/// list; without a list of filters there is none.
pub proof fn lemma_nat_data_source_filters(lookup: NATDataSource)
    ensures
        lookup.spec_block().nested_blocks() == match lookup.filter {
            Some(list) => filter_views(list@),
            None => Seq::<BlockView>::empty(),
        },
{
    let so_far0 = Seq::<StructureView>::empty();
    assert(no_attribute_named(so_far0, "filter"@));
    let piece1 = optional_string("id"@, lookup.id);
    let so_far1 = so_far0 + piece1;
    lemma_append_attributes(so_far0, piece1, "id"@, "filter"@);
    let piece2 = optional_string("subnet_id"@, lookup.subnet_id);
    let so_far2 = so_far1 + piece2;
    lemma_append_attributes(so_far1, piece2, "subnet_id"@, "filter"@);
    let piece3 = optional_string("vpc_id"@, lookup.vpc_id);
    let so_far3 = so_far2 + piece3;
    lemma_append_attributes(so_far2, piece3, "vpc_id"@, "filter"@);
    let piece4 = optional_string("state"@, lookup.state);
    let so_far4 = so_far3 + piece4;
    lemma_append_attributes(so_far3, piece4, "state"@, "filter"@);
    let piece5 = optional_tags(lookup.tags);
    let so_far5 = so_far4 + piece5;
    lemma_append_attributes(so_far4, piece5, "tags"@, "filter"@);
    let blocks = match lookup.filter {
        Some(list) => filter_views(list@),
        None => Seq::<BlockView>::empty(),
    };
    assert(optional_filters(lookup.filter) =~= nested_all(blocks));
    assert(lookup.spec_block().body =~= so_far5 + nested_all(blocks));
    lemma_blocks_after_attributes(so_far5, blocks);
}

/// The block that a NAT gateway compiles to is handed to the renderer as it
/// is: its block type and its keys are plain identifiers, and the tags have no
/// key twice.
pub proof fn lemma_nat_gateway_is_kept(gateway: NAT)
    requires
        gateway.tags is Some ==> distinct_keys(gateway.tags->Some_0@),
    ensures
        is_kept_block(gateway.spec_block()),
        lowered_block(gateway.spec_block()) == gateway.spec_block(),
{
    reveal_strlit("resource");
    reveal_strlit("allocation_id");
    reveal_strlit("connectivity_type");
    reveal_strlit("state");
    reveal_strlit("subnet_id");
    reveal_strlit("tags");
    let so_far0 = Seq::<StructureView>::empty();
    let piece1 = attribute(
        "subnet_id"@,
        ExprView::RawReference(reference("aws_subnet"@, gateway.subnet.name@, "id"@)),
    );
    assert(all_kept(piece1));
    let so_far1 = so_far0 + piece1;
    lemma_kept_concat(so_far0, piece1);
    let piece2 = attribute(
        "allocation_id"@,
        ExprView::RawReference(reference("aws_eip"@, gateway.elastic_ip.name@, "id"@)),
    );
    assert(all_kept(piece2));
    let so_far2 = so_far1 + piece2;
    lemma_kept_concat(so_far1, piece2);
    let piece3 = optional_string("connectivity_type"@, gateway.connectivity_type);
    assert(all_kept(piece3));
    let so_far3 = so_far2 + piece3;
    lemma_kept_concat(so_far2, piece3);
    let piece4 = optional_string("state"@, gateway.state);
    assert(all_kept(piece4));
    let so_far4 = so_far3 + piece4;
    lemma_kept_concat(so_far3, piece4);
    let piece5 = optional_tags(gateway.tags);
    if let Some(tags) = gateway.tags {
        lemma_kept_tags(tags@);
    }
    assert(all_kept(piece5));
    let so_far5 = so_far4 + piece5;
    lemma_kept_concat(so_far4, piece5);
    assert(gateway.spec_block().body =~= so_far5);
    lemma_kept_block(gateway.spec_block());
}

/// The block that a lookup of a NAT gateway compiles to is handed to the
/// renderer as it is: its block type and its keys are plain identifiers, and
/// the tags have no key twice.
pub proof fn lemma_nat_data_source_is_kept(lookup: NATDataSource)
    requires
        lookup.tags is Some ==> distinct_keys(lookup.tags->Some_0@),
    ensures
        is_kept_block(lookup.spec_block()),
        lowered_block(lookup.spec_block()) == lookup.spec_block(),
{
    reveal_strlit("data");
    reveal_strlit("id");
    reveal_strlit("state");
    reveal_strlit("subnet_id");
    reveal_strlit("tags");
    reveal_strlit("vpc_id");
    let so_far0 = Seq::<StructureView>::empty();
    let piece1 = optional_string("id"@, lookup.id);
    assert(all_kept(piece1));
    let so_far1 = so_far0 + piece1;
    lemma_kept_concat(so_far0, piece1);
    let piece2 = optional_string("subnet_id"@, lookup.subnet_id);
    assert(all_kept(piece2));
    let so_far2 = so_far1 + piece2;
    lemma_kept_concat(so_far1, piece2);
    let piece3 = optional_string("vpc_id"@, lookup.vpc_id);
    assert(all_kept(piece3));
    let so_far3 = so_far2 + piece3;
    lemma_kept_concat(so_far2, piece3);
    let piece4 = optional_string("state"@, lookup.state);
    assert(all_kept(piece4));
    let so_far4 = so_far3 + piece4;
    lemma_kept_concat(so_far3, piece4);
    let piece5 = optional_tags(lookup.tags);
    if let Some(tags) = lookup.tags {
        lemma_kept_tags(tags@);
    }
    assert(all_kept(piece5));
    let so_far5 = so_far4 + piece5;
    lemma_kept_concat(so_far4, piece5);
    let piece6 = optional_filters(lookup.filter);
    if let Some(list) = lookup.filter {
        assert forall|i: int| 0 <= i < piece6.len() implies is_kept_structure(
            #[trigger] piece6[i],
        ) by {
            lemma_kept_filter(list@[i].name@, strings_view(list@[i].values@));
        }
    }
    assert(all_kept(piece6));
    let so_far6 = so_far5 + piece6;
    lemma_kept_concat(so_far5, piece6);
    assert(lookup.spec_block().body =~= so_far6);
    lemma_kept_block(lookup.spec_block());
}

} // verus!
