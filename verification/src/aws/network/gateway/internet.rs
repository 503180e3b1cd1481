//! Internet gateways and their read-only lookup.

use crate::aws::emit::{
    add_optional_string, add_optional_tags, filter_block, filter_view, lemma_append_attributes,
    lemma_no_attribute_in_concat, lemma_tags_absent_or_present, optional_string, optional_tags,
    reference, reference_token, tags_object,
};
use crate::aws::network::vpc::Vpc;
use crate::aws::tags::{distinct_keys, Tags};
use crate::ir::{
    attribute, lemma_blocks_after_attributes, lemma_value_absent, lemma_value_present, nested_all,
    no_attribute_named, strings_view, Block, BlockView, Builder, Expr, ExprView, StructureView,
};
use crate::lowering::{
    all_kept, is_kept_block, is_kept_structure, lemma_kept_block, lemma_kept_concat,
    lemma_kept_filter, lemma_kept_tags, lowered_block,
};
use vstd::prelude::*;

verus! {

/// An internet gateway attached to a virtual private cloud.
#[derive(Debug, Clone)]
pub struct Internet<'a> {
    /// The name of the gateway.
    pub name: String,
    /// The network that the gateway is attached to.
    pub vpc: &'a Vpc,
    /// The tags of the gateway.
    pub tags: Option<Tags>,
}

impl<'a> Internet<'a> {
    /// The block that the gateway compiles to: a `resource` block labelled
    /// `aws_internet_gateway` and the gateway's name. Its network is a
    /// reference to the `id` of the network's resource; the tags follow
    /// where they are present.
    pub open spec fn spec_block(&self) -> BlockView {
        BlockView::new("resource"@).label("aws_internet_gateway"@).label(self.name@).items(
            attribute(
                "vpc_id"@,
                ExprView::RawReference(reference("aws_vpc"@, self.vpc.name@, "id"@)),
            )
                + optional_tags(self.tags),
        )
    }

    /// Compiles the gateway into its block.
    pub fn compile(&self) -> (block: Block)
        ensures
            block@ == self.spec_block(),
    {
        let builder = Block::builder("resource").add_label("aws_internet_gateway").add_label(
            self.name.as_str(),
        ).add_attribute(
            "vpc_id",
            Expr::RawReference(reference_token("aws_vpc", self.vpc.name.as_str(), "id")),
        );
        let builder = add_optional_tags(builder, &self.tags);
        let block = builder.build();
        assert(block@.labels =~= self.spec_block().labels);
        assert(block@.body =~= self.spec_block().body);
        block
    }
}

/// What the conversion gives is stated by the `ensures` of `from` itself.
impl<'a> vstd::std_specs::convert::FromSpecImpl<Internet<'a>> for Block {
    open spec fn obeys_from_spec() -> bool {
        false
    }

    open spec fn from_spec(internet: Internet<'a>) -> Block {
        arbitrary()
    }
}

impl<'a> From<Internet<'a>> for Block {
    /// Compiles the gateway into its block.
    fn from(internet: Internet<'a>) -> (block: Block)
        ensures
            block@ == internet.spec_block(),
    {
        internet.compile()
    }
}

/// The read-only lookup of an internet gateway.
#[derive(Debug, Clone)]
pub struct InternetDataSource {
    /// The name of the lookup.
    pub name: String,
    /// The identifier of the gateway to find.
    pub internet_gateway_id: Option<String>,
    /// The filters that narrow the lookup.
    pub filter: Option<Vec<Filter>>,
    /// The tags that the gateway must have.
    pub tags: Option<Tags>,
}

/// A name and the values it may take, by which a lookup is narrowed.
#[derive(Debug, Clone)]
pub struct Filter {
    /// The name of the field to filter by.
    pub name: String,
    /// The values that the field may have.
    pub values: Vec<String>,
}

impl Filter {
    /// The `filter` block that the filter compiles to.
    pub open spec fn spec_block(&self) -> BlockView {
        filter_view(self.name@, strings_view(self.values@))
    }

    /// Compiles the filter into its block.
    pub fn compile(&self) -> (block: Block)
        ensures
            block@ == self.spec_block(),
    {
        filter_block(&self.name, &self.values)
    }
}

/// The blocks of a list of filters, one for each filter, in the order of the list.
pub open spec fn filter_views(filters: Seq<Filter>) -> Seq<BlockView> {
    Seq::new(filters.len(), |i: int| filters[i].spec_block())
}

/// The body items of an optional list of filters: one nested `filter` block
/// for each filter, in the order of the list, and nothing when the list is
/// absent.
pub open spec fn optional_filters(filters: Option<Vec<Filter>>) -> Seq<StructureView> {
    match filters {
        Some(list) => nested_all(filter_views(list@)),
        None => Seq::empty(),
    }
}

/// Adds the nested blocks of an optional list of filters.
pub fn add_optional_filters(builder: Builder, filters: &Option<Vec<Filter>>) -> (out:
    Builder)
    ensures
        out@ == builder@.items(optional_filters(*filters)),
{
    match filters {
        Some(list) => {
            let mut blocks: Vec<Block> = Vec::new();
            let mut i: usize = 0;
            while i < list.len()
                invariant
                    i <= list@.len(),
                    blocks@.len() == i,
                    forall|k: int| 0 <= k < i ==> (#[trigger] blocks@[k])@ == list@[k].spec_block(),
                decreases list@.len() - i,
            {
                blocks.push(list[i].compile());
                i += 1;
            }
            assert(crate::ir::blocks_view(blocks@) =~= filter_views(list@));
            builder.add_blocks(blocks)
        },
        None => {
            assert(builder@.body + Seq::<StructureView>::empty() =~= builder@.body);
            builder
        },
    }
}

impl InternetDataSource {
    /// The block that the lookup compiles to: a `data` block labelled
    /// `aws_internet_gateway` and the lookup's name, with the identifier and
    /// the tags where they are present and then one nested block for each
    /// filter.
    pub open spec fn spec_block(&self) -> BlockView {
        BlockView::new("data"@).label("aws_internet_gateway"@).label(self.name@).items(
            optional_string("internet_gateway_id"@, self.internet_gateway_id)
                + optional_tags(self.tags)
                + optional_filters(self.filter),
        )
    }

    /// Compiles the lookup into its block.
    pub fn compile(&self) -> (block: Block)
        ensures
            block@ == self.spec_block(),
    {
        let builder = Block::builder("data").add_label("aws_internet_gateway").add_label(
            self.name.as_str(),
        );
        let builder = add_optional_string(
            builder,
            "internet_gateway_id",
            &self.internet_gateway_id,
        );
        let builder = add_optional_tags(builder, &self.tags);
        let builder = add_optional_filters(builder, &self.filter);
        let block = builder.build();
        assert(block@.labels =~= self.spec_block().labels);
        assert(block@.body =~= self.spec_block().body);
        block
    }
}

/// What the conversion gives is stated by the `ensures` of `from` itself.
impl vstd::std_specs::convert::FromSpecImpl<InternetDataSource> for Block {
    open spec fn obeys_from_spec() -> bool {
        false
    }

    open spec fn from_spec(data_source: InternetDataSource) -> Block {
        arbitrary()
    }
}

impl From<InternetDataSource> for Block {
    /// Compiles the lookup into its block.
    fn from(data_source: InternetDataSource) -> (block: Block)
        ensures
            block@ == data_source.spec_block(),
    {
        data_source.compile()
    }
}

/// The network of an internet gateway is a reference and not a literal: the
/// attribute `vpc_id` holds the token that stands for the `id` of the
/// network's resource.
pub proof fn lemma_internet_references_network(gateway: Internet)
    ensures
        gateway.spec_block().value_of("vpc_id"@) == Some(
            ExprView::RawReference(reference("aws_vpc"@, gateway.vpc.name@, "id"@)),
        ),
{
    let token = reference("aws_vpc"@, gateway.vpc.name@, "id"@);
    let body = gateway.spec_block().body;
    let after = body.subrange(1, body.len() as int);
    assert(body =~= Seq::<StructureView>::empty() + attribute(
        "vpc_id"@,
        ExprView::RawReference(token),
    ) + after);
    lemma_value_present(Seq::empty(), "vpc_id"@, ExprView::RawReference(token), after);
}

/// An internet gateway without optional fields compiles to a block with only
/// the items that every internet gateway has.
pub proof fn lemma_bare_internet(gateway: Internet)
    requires
        gateway.tags is None,
    ensures
        gateway.spec_block().body == (
            attribute(
                "vpc_id"@,
                ExprView::RawReference(reference("aws_vpc"@, gateway.vpc.name@, "id"@)),
            )
        ),
{
    assert(gateway.spec_block().body =~= (
        attribute(
            "vpc_id"@,
            ExprView::RawReference(reference("aws_vpc"@, gateway.vpc.name@, "id"@)),
        )
    ));
}

/// An internet gateway without tags compiles to a block without a `tags`
/// attribute. With tags, the block has the attribute `tags` with the object of
/// the tags, which is the empty object where the map is empty.
pub proof fn lemma_internet_tags(gateway: Internet)
    ensures
        gateway.tags is None ==> gateway.spec_block().value_of("tags"@) is None,
        gateway.tags is Some ==> gateway.spec_block().value_of("tags"@) == Some(
            tags_object(gateway.tags->Some_0@),
        ),
        gateway.tags is Some && gateway.tags->Some_0@.len() == 0 ==> gateway.spec_block().value_of(
            "tags"@,
        ) == Some(ExprView::Object(Seq::empty())),
{
    reveal_strlit("tags");
    reveal_strlit("vpc_id");
    assert("tags"@.len() == 4 && "tags"@[0] == 't');
    assert("vpc_id"@.len() == 6);
    let so_far0 = Seq::<StructureView>::empty();
    assert(no_attribute_named(so_far0, "tags"@));
    let piece1 = attribute(
        "vpc_id"@,
        ExprView::RawReference(reference("aws_vpc"@, gateway.vpc.name@, "id"@)),
    );
    let so_far1 = so_far0 + piece1;
    lemma_append_attributes(so_far0, piece1, "vpc_id"@, "tags"@);
    lemma_tags_absent_or_present(gateway.tags);
    let rest = Seq::<StructureView>::empty();
    match gateway.tags {
        None => {
            lemma_no_attribute_in_concat(so_far1, rest, "tags"@);
            assert(gateway.spec_block().body =~= so_far1 + rest);
            lemma_value_absent(gateway.spec_block().body, "tags"@);
        },
        Some(tags) => {
            let object = tags_object(tags@);
            if tags@.len() == 0 {
                assert(object->Object_0 =~= Seq::empty());
            }
            assert(gateway.spec_block().body =~= so_far1 + attribute("tags"@, object) + rest);
            lemma_value_present(so_far1, "tags"@, object, rest);
        },
    }
}

/// A lookup of an internet gateway without optional fields compiles to a block
/// with an empty body.
pub proof fn lemma_bare_internet_data_source(lookup: InternetDataSource)
    requires
        lookup.internet_gateway_id is None,
        lookup.tags is None,
        lookup.filter is None,
    ensures
        lookup.spec_block().body == Seq::<StructureView>::empty(),
{
    assert(lookup.spec_block().body =~= Seq::<StructureView>::empty());
}

/// A lookup of an internet gateway without tags compiles to a block without a
/// `tags` attribute. With tags, the block has the attribute `tags` with the
/// object of the tags, which is the empty object where the map is empty.
pub proof fn lemma_internet_data_source_tags(lookup: InternetDataSource)
    ensures
        lookup.tags is None ==> lookup.spec_block().value_of("tags"@) is None,
        lookup.tags is Some ==> lookup.spec_block().value_of("tags"@) == Some(
            tags_object(lookup.tags->Some_0@),
        ),
        lookup.tags is Some && lookup.tags->Some_0@.len() == 0 ==> lookup.spec_block().value_of(
            "tags"@,
        ) == Some(ExprView::Object(Seq::empty())),
{
    reveal_strlit("tags");
    reveal_strlit("internet_gateway_id");
    assert("tags"@.len() == 4 && "tags"@[0] == 't');
    assert("internet_gateway_id"@.len() == 19);
    let so_far0 = Seq::<StructureView>::empty();
    assert(no_attribute_named(so_far0, "tags"@));
    let piece1 = optional_string("internet_gateway_id"@, lookup.internet_gateway_id);
    let so_far1 = so_far0 + piece1;
    lemma_append_attributes(so_far0, piece1, "internet_gateway_id"@, "tags"@);
    lemma_tags_absent_or_present(lookup.tags);
    let rest = optional_filters(lookup.filter);
    let blocks = match lookup.filter {
        Some(list) => filter_views(list@),
        None => Seq::<BlockView>::empty(),
    };
    assert(rest =~= nested_all(blocks));
    assert(no_attribute_named(rest, "tags"@));
    match lookup.tags {
        None => {
            lemma_no_attribute_in_concat(so_far1, rest, "tags"@);
            assert(lookup.spec_block().body =~= so_far1 + rest);
            lemma_value_absent(lookup.spec_block().body, "tags"@);
        },
        Some(tags) => {
            let object = tags_object(tags@);
            if tags@.len() == 0 {
                assert(object->Object_0 =~= Seq::empty());
            }
            assert(lookup.spec_block().body =~= so_far1 + attribute("tags"@, object) + rest);
            lemma_value_present(so_far1, "tags"@, object, rest);
        },
    }
}

/// The nested blocks of the block that the lookup of an internet gateway
/// compiles to are the blocks of its filters, one for each filter and in the
/// order of the list; without a list of filters there is none.
pub proof fn lemma_internet_data_source_filters(lookup: InternetDataSource)
    ensures
        lookup.spec_block().nested_blocks() == match lookup.filter {
            Some(list) => filter_views(list@),
            None => Seq::<BlockView>::empty(),
        },
{
    let so_far0 = Seq::<StructureView>::empty();
    assert(no_attribute_named(so_far0, "filter"@));
    let piece1 = optional_string("internet_gateway_id"@, lookup.internet_gateway_id);
    let so_far1 = so_far0 + piece1;
    lemma_append_attributes(so_far0, piece1, "internet_gateway_id"@, "filter"@);
    let piece2 = optional_tags(lookup.tags);
    let so_far2 = so_far1 + piece2;
    lemma_append_attributes(so_far1, piece2, "tags"@, "filter"@);
    let blocks = match lookup.filter {
        Some(list) => filter_views(list@),
        None => Seq::<BlockView>::empty(),
    };
    assert(optional_filters(lookup.filter) =~= nested_all(blocks));
    assert(lookup.spec_block().body =~= so_far2 + nested_all(blocks));
    lemma_blocks_after_attributes(so_far2, blocks);
}

/// The block that an internet gateway compiles to is handed to the renderer as
/// it is: its block type and its keys are plain identifiers, and the tags have
/// no key twice.
pub proof fn lemma_internet_is_kept(gateway: Internet)
    requires
        gateway.tags is Some ==> distinct_keys(gateway.tags->Some_0@),
    ensures
        is_kept_block(gateway.spec_block()),
        lowered_block(gateway.spec_block()) == gateway.spec_block(),
{
    reveal_strlit("resource");
    reveal_strlit("tags");
    reveal_strlit("vpc_id");
    let so_far0 = Seq::<StructureView>::empty();
    let piece1 = attribute(
        "vpc_id"@,
        ExprView::RawReference(reference("aws_vpc"@, gateway.vpc.name@, "id"@)),
    );
    assert(all_kept(piece1));
    let so_far1 = so_far0 + piece1;
    lemma_kept_concat(so_far0, piece1);
    let piece2 = optional_tags(gateway.tags);
    if let Some(tags) = gateway.tags {
        lemma_kept_tags(tags@);
    }
    assert(all_kept(piece2));
    let so_far2 = so_far1 + piece2;
    lemma_kept_concat(so_far1, piece2);
    assert(gateway.spec_block().body =~= so_far2);
    lemma_kept_block(gateway.spec_block());
}

/// The block that a lookup of an internet gateway compiles to is handed to the
/// renderer as it is: its block type and its keys are plain identifiers, and
/// the tags have no key twice.
pub proof fn lemma_internet_data_source_is_kept(lookup: InternetDataSource)
    requires
        lookup.tags is Some ==> distinct_keys(lookup.tags->Some_0@),
    ensures
        is_kept_block(lookup.spec_block()),
        lowered_block(lookup.spec_block()) == lookup.spec_block(),
{
    reveal_strlit("data");
    reveal_strlit("internet_gateway_id");
    reveal_strlit("tags");
    let so_far0 = Seq::<StructureView>::empty();
    let piece1 = optional_string("internet_gateway_id"@, lookup.internet_gateway_id);
    assert(all_kept(piece1));
    let so_far1 = so_far0 + piece1;
    lemma_kept_concat(so_far0, piece1);
    let piece2 = optional_tags(lookup.tags);
    if let Some(tags) = lookup.tags {
        lemma_kept_tags(tags@);
    }
    assert(all_kept(piece2));
    let so_far2 = so_far1 + piece2;
    lemma_kept_concat(so_far1, piece2);
    let piece3 = optional_filters(lookup.filter);
    if let Some(list) = lookup.filter {
        assert forall|i: int| 0 <= i < piece3.len() implies is_kept_structure(
            #[trigger] piece3[i],
        ) by {
            lemma_kept_filter(list@[i].name@, strings_view(list@[i].values@));
        }
    }
    assert(all_kept(piece3));
    let so_far3 = so_far2 + piece3;
    lemma_kept_concat(so_far2, piece3);
    assert(lookup.spec_block().body =~= so_far3);
    lemma_kept_block(lookup.spec_block());
}

} // verus!
