//! Virtual private clouds, their read-only lookup, and elastic IPs.

use crate::aws::emit::{
    add_optional_bool, add_optional_string, add_optional_tags, filter_block, filter_view,
    lemma_append_attributes, lemma_no_attribute_in_concat, lemma_tags_absent_or_present,
    optional_bool, optional_string, optional_tags, tags_object,
};
use crate::aws::network::cidr;
use crate::aws::tags::{distinct_keys, Tags};
use crate::ir::{
    attribute, lemma_blocks_after_attributes, lemma_value_absent, lemma_value_present, nested_all,
    no_attribute_named, strings_view, Block, BlockView, Builder, Expr, ExprView, StructureView,
};
use crate::lowering::{
    all_kept, is_kept_block, is_kept_structure, lemma_kept_block, lemma_kept_concat,
    lemma_kept_filter, lemma_kept_tags, lowered_block,
};
use vstd::prelude::*;

verus! {

/// A virtual private cloud.
#[derive(Debug, Clone)]
pub struct Vpc {
    /// The name of the network.
    pub name: String,
    /// The IPv4 range of the network.
    pub cidr_block: cidr::Block,
    /// A tenancy option for instances launched into the network.
    pub instance_tenancy: Option<String>,
    /// Whether DNS hostnames are enabled.
    pub enable_dns_hostnames: Option<bool>,
    /// Whether DNS support is enabled.
    pub enable_dns_support: Option<bool>,
    /// Whether ClassicLink is enabled.
    pub enable_classiclink: Option<bool>,
    /// Whether ClassicLink DNS support is enabled.
    pub enable_classiclink_dns_support: Option<bool>,
    /// Whether an IPv6 range with a /56 prefix is requested.
    pub assign_generated_ipv6_cidr_block: Option<bool>,
    /// The tags of the network.
    pub tags: Option<Tags>,
}

impl Vpc {
    /// The name under which other resources refer to this network.
    pub open spec fn spec_resource_name(&self) -> Seq<char> {
        "aws_vpc."@ + self.name@
    }

    /// The block that the network compiles to: a `resource` block labelled
    /// `aws_vpc` and the network's name, with the range first and then each
    /// optional field that is present, in the order of declaration.
    pub open spec fn spec_block(&self) -> BlockView {
        BlockView::new("resource"@).label("aws_vpc"@).label(self.name@).items(
            attribute("cidr_block"@, ExprView::String(self.cidr_block.spec_notation()))
                + optional_string("instance_tenancy"@, self.instance_tenancy)
                + optional_bool("enable_dns_hostnames"@, self.enable_dns_hostnames)
                + optional_bool("enable_dns_support"@, self.enable_dns_support)
                + optional_bool("enable_classiclink"@, self.enable_classiclink)
                + optional_bool(
                    "enable_classiclink_dns_support"@,
                    self.enable_classiclink_dns_support,
                )
                + optional_bool(
                    "assign_generated_ipv6_cidr_block"@,
                    self.assign_generated_ipv6_cidr_block,
                )
                + optional_tags(self.tags),
        )
    }

    /// The name under which other resources refer to this network.
    pub fn resource_name(&self) -> (name: String)
        ensures
            name@ == self.spec_resource_name(),
    {
        let mut name = String::from_str("aws_vpc.");
        name.append(self.name.as_str());
        name
    }

    /// Compiles the network into its block.
    pub fn compile(&self) -> (block: Block)
        ensures
            block@ == self.spec_block(),
    {
        let builder = Block::builder("resource").add_label("aws_vpc").add_label(
            self.name.as_str(),
        ).add_attribute("cidr_block", Expr::String(self.cidr_block.to_string()));
        let builder = add_optional_string(builder, "instance_tenancy", &self.instance_tenancy);
        let builder = add_optional_bool(
            builder,
            "enable_dns_hostnames",
            &self.enable_dns_hostnames,
        );
        let builder = add_optional_bool(builder, "enable_dns_support", &self.enable_dns_support);
        let builder = add_optional_bool(builder, "enable_classiclink", &self.enable_classiclink);
        let builder = add_optional_bool(
            builder,
            "enable_classiclink_dns_support",
            &self.enable_classiclink_dns_support,
        );
        let builder = add_optional_bool(
            builder,
            "assign_generated_ipv6_cidr_block",
            &self.assign_generated_ipv6_cidr_block,
        );
        let builder = add_optional_tags(builder, &self.tags);
        let block = builder.build();
        assert(block@.labels =~= self.spec_block().labels);
        assert(block@.body =~= self.spec_block().body);
        block
    }
}

/// What the conversion gives is stated by the `ensures` of `from` itself.
impl vstd::std_specs::convert::FromSpecImpl<Vpc> for Block {
    open spec fn obeys_from_spec() -> bool {
        false
    }

    open spec fn from_spec(vpc: Vpc) -> Block {
        arbitrary()
    }
}

impl From<Vpc> for Block {
    fn from(vpc: Vpc) -> (block: Block)
        ensures
            block@ == vpc.spec_block(),
    {
        vpc.compile()
    }
}

/// A name and the values it may take, by which a lookup is narrowed.
#[derive(Debug, Clone)]
pub struct Filter {
    /// The name of the field to filter by.
    pub name: String,
    /// The values that the field may have.
    pub values: Vec<String>,
}

impl Filter {
    /// The `filter` block that the filter compiles to.
    pub open spec fn spec_block(&self) -> BlockView {
        filter_view(self.name@, strings_view(self.values@))
    }

    /// Compiles the filter into its block.
    pub fn compile(&self) -> (block: Block)
        ensures
            block@ == self.spec_block(),
    {
        filter_block(&self.name, &self.values)
    }
}

/// The blocks of a list of filters, one for each filter, in the order of the list.
pub open spec fn filter_views(filters: Seq<Filter>) -> Seq<BlockView> {
    Seq::new(filters.len(), |i: int| filters[i].spec_block())
}

/// The body items of an optional list of filters: one nested `filter` block
/// for each filter, in the order of the list, and nothing when the list is
/// absent.
pub open spec fn optional_filters(filters: Option<Vec<Filter>>) -> Seq<StructureView> {
    match filters {
        Some(list) => nested_all(filter_views(list@)),
        None => Seq::empty(),
    }
}

/// Adds the nested blocks of an optional list of filters.
pub fn add_optional_filters(builder: Builder, filters: &Option<Vec<Filter>>) -> (out:
    Builder)
    ensures
        out@ == builder@.items(optional_filters(*filters)),
{
    match filters {
        Some(list) => {
            let mut blocks: Vec<Block> = Vec::new();
            let mut i: usize = 0;
            while i < list.len()
                invariant
                    i <= list@.len(),
                    blocks@.len() == i,
                    forall|k: int| 0 <= k < i ==> (#[trigger] blocks@[k])@ == list@[k].spec_block(),
                decreases list@.len() - i,
            {
                blocks.push(list[i].compile());
                i += 1;
            }
            assert(crate::ir::blocks_view(blocks@) =~= filter_views(list@));
            builder.add_blocks(blocks)
        },
        None => {
            assert(builder@.body + Seq::<StructureView>::empty() =~= builder@.body);
            builder
        },
    }
}

/// The read-only lookup of a virtual private cloud.
#[derive(Debug, Clone)]
pub struct VpcDataSource {
    /// The identifier of the network.
    pub id: Option<String>,
    /// The IPv4 range of the network.
    pub cidr_block: Option<String>,
    /// The account that owns the network.
    pub owner_id: Option<String>,
    /// Whether DNS hostnames are enabled.
    pub enable_dns_hostnames: Option<bool>,
    /// Whether DNS support is enabled.
    pub enable_dns_support: Option<bool>,
    /// The tags that the network must have.
    pub tags: Option<Tags>,
    /// The filters that narrow the lookup.
    pub filter: Option<Vec<Filter>>,
}

impl VpcDataSource {
    /// The second label of the block: the identifier where there is one,
    /// `vpc` otherwise.
    pub open spec fn spec_label(&self) -> Seq<char> {
        match self.id {
            Some(id) => id@,
            None => "vpc"@,
        }
    }

    /// The block that the lookup compiles to: a `data` block labelled
    /// `aws_vpc` and the identifier, with each field that is present and
    /// then one nested block for each filter.
    pub open spec fn spec_block(&self) -> BlockView {
        BlockView::new("data"@).label("aws_vpc"@).label(self.spec_label()).items(
            optional_string("id"@, self.id)
                + optional_string("cidr_block"@, self.cidr_block)
                + optional_string("owner_id"@, self.owner_id)
                + optional_bool("enable_dns_hostnames"@, self.enable_dns_hostnames)
                + optional_bool("enable_dns_support"@, self.enable_dns_support)
                + optional_tags(self.tags)
                + optional_filters(self.filter),
        )
    }

    /// Compiles the lookup into its block.
    pub fn compile(&self) -> (block: Block)
        ensures
            block@ == self.spec_block(),
    {
        let label = match &self.id {
            Some(id) => id.as_str(),
            None => "vpc",
        };
        let builder = Block::builder("data").add_label("aws_vpc").add_label(label);
        let builder = add_optional_string(builder, "id", &self.id);
        let builder = add_optional_string(builder, "cidr_block", &self.cidr_block);
        let builder = add_optional_string(builder, "owner_id", &self.owner_id);
        let builder = add_optional_bool(
            builder,
            "enable_dns_hostnames",
            &self.enable_dns_hostnames,
        );
        let builder = add_optional_bool(builder, "enable_dns_support", &self.enable_dns_support);
        let builder = add_optional_tags(builder, &self.tags);
        let builder = add_optional_filters(builder, &self.filter);
        let block = builder.build();
        assert(block@.labels =~= self.spec_block().labels);
        assert(block@.body =~= self.spec_block().body);
        block
    }
}

/// What the conversion gives is stated by the `ensures` of `from` itself.
impl vstd::std_specs::convert::FromSpecImpl<VpcDataSource> for Block {
    open spec fn obeys_from_spec() -> bool {
        false
    }

    open spec fn from_spec(data_source: VpcDataSource) -> Block {
        arbitrary()
    }
}

impl From<VpcDataSource> for Block {
    /// Compiles the lookup into its block.
    fn from(data_source: VpcDataSource) -> (block: Block)
        ensures
            block@ == data_source.spec_block(),
    {
        data_source.compile()
    }
}

/// An elastic IP address.
#[derive(Debug, Clone)]
pub struct ElasticIp {
    /// The name of the address.
    pub name: String,
    /// Whether the address is for use in a network or in the classic platform.
    pub domain: Option<String>,
    /// The instance to associate with.
    pub instance: Option<String>,
    /// The network interface to associate with.
    pub network_interface: Option<String>,
    /// The pool of own addresses to take the address from.
    pub public_ipv4_pool: Option<String>,
    /// The customer-owned pool to take the address from.
    pub customer_owned_ipv4_pool: Option<String>,
    /// The private address to associate with.
    pub associate_with_private_ip: Option<String>,
    /// The address to recover.
    pub address: Option<String>,
    /// The tags of the address.
    pub tags: Option<Tags>,
}

impl ElasticIp {
    /// The block that the address compiles to: a `resource` block labelled
    /// `aws_eip` and the name, with each optional field that is present.
    pub open spec fn spec_block(&self) -> BlockView {
        BlockView::new("resource"@).label("aws_eip"@).label(self.name@).items(
            optional_string("domain"@, self.domain)
                + optional_string("instance"@, self.instance)
                + optional_string("network_interface"@, self.network_interface)
                + optional_string("public_ipv4_pool"@, self.public_ipv4_pool)
                + optional_string("customer_owned_ipv4_pool"@, self.customer_owned_ipv4_pool)
                + optional_string("associate_with_private_ip"@, self.associate_with_private_ip)
                + optional_string("address"@, self.address)
                + optional_tags(self.tags),
        )
    }

    /// Compiles the address into its block.
    pub fn compile(&self) -> (block: Block)
        ensures
            block@ == self.spec_block(),
    {
        let builder = Block::builder("resource").add_label("aws_eip").add_label(self.name.as_str());
        let builder = add_optional_string(builder, "domain", &self.domain);
        let builder = add_optional_string(builder, "instance", &self.instance);
        let builder = add_optional_string(builder, "network_interface", &self.network_interface);
        let builder = add_optional_string(builder, "public_ipv4_pool", &self.public_ipv4_pool);
        let builder = add_optional_string(
            builder,
            "customer_owned_ipv4_pool",
            &self.customer_owned_ipv4_pool,
        );
        let builder = add_optional_string(
            builder,
            "associate_with_private_ip",
            &self.associate_with_private_ip,
        );
        let builder = add_optional_string(builder, "address", &self.address);
        let builder = add_optional_tags(builder, &self.tags);
        let block = builder.build();
        assert(block@.labels =~= self.spec_block().labels);
        assert(block@.body =~= self.spec_block().body);
        block
    }
}

/// What the conversion gives is stated by the `ensures` of `from` itself.
impl vstd::std_specs::convert::FromSpecImpl<ElasticIp> for Block {
    open spec fn obeys_from_spec() -> bool {
        false
    }

    open spec fn from_spec(eip: ElasticIp) -> Block {
        arbitrary()
    }
}

impl From<ElasticIp> for Block {
    /// Compiles the address into its block.
    fn from(eip: ElasticIp) -> (block: Block)
        ensures
            block@ == eip.spec_block(),
    {
        eip.compile()
    }
}

/// A network without optional fields compiles to a block with only the items
/// that every network has.
pub proof fn lemma_bare_vpc(vpc: Vpc)
    requires
        vpc.instance_tenancy is None,
        vpc.enable_dns_hostnames is None,
        vpc.enable_dns_support is None,
        vpc.enable_classiclink is None,
        vpc.enable_classiclink_dns_support is None,
        vpc.assign_generated_ipv6_cidr_block is None,
        vpc.tags is None,
    ensures
        vpc.spec_block().body == (
            attribute("cidr_block"@, ExprView::String(vpc.cidr_block.spec_notation()))
        ),
{
    assert(vpc.spec_block().body =~= (
        attribute("cidr_block"@, ExprView::String(vpc.cidr_block.spec_notation()))
    ));
}

/// A network without tags compiles to a block without a `tags` attribute. With
/// tags, the block has the attribute `tags` with the object of the tags, which
/// is the empty object where the map is empty.
pub proof fn lemma_vpc_tags(vpc: Vpc)
    ensures
        vpc.tags is None ==> vpc.spec_block().value_of("tags"@) is None,
        vpc.tags is Some ==> vpc.spec_block().value_of("tags"@) == Some(
            tags_object(vpc.tags->Some_0@),
        ),
        vpc.tags is Some && vpc.tags->Some_0@.len() == 0 ==> vpc.spec_block().value_of(
            "tags"@,
        ) == Some(ExprView::Object(Seq::empty())),
{
    reveal_strlit("tags");
    reveal_strlit("assign_generated_ipv6_cidr_block");
    reveal_strlit("cidr_block");
    reveal_strlit("enable_classiclink");
    reveal_strlit("enable_classiclink_dns_support");
    reveal_strlit("enable_dns_hostnames");
    reveal_strlit("enable_dns_support");
    reveal_strlit("instance_tenancy");
    assert("tags"@.len() == 4 && "tags"@[0] == 't');
    assert("assign_generated_ipv6_cidr_block"@.len() == 32);
    assert("cidr_block"@.len() == 10);
    assert("enable_classiclink"@.len() == 18);
    assert("enable_classiclink_dns_support"@.len() == 30);
    assert("enable_dns_hostnames"@.len() == 20);
    assert("enable_dns_support"@.len() == 18);
    assert("instance_tenancy"@.len() == 16);
    let so_far0 = Seq::<StructureView>::empty();
    assert(no_attribute_named(so_far0, "tags"@));
    let piece1 = attribute("cidr_block"@, ExprView::String(vpc.cidr_block.spec_notation()));
    let so_far1 = so_far0 + piece1;
    lemma_append_attributes(so_far0, piece1, "cidr_block"@, "tags"@);
    let piece2 = optional_string("instance_tenancy"@, vpc.instance_tenancy);
    let so_far2 = so_far1 + piece2;
    lemma_append_attributes(so_far1, piece2, "instance_tenancy"@, "tags"@);
    let piece3 = optional_bool("enable_dns_hostnames"@, vpc.enable_dns_hostnames);
    let so_far3 = so_far2 + piece3;
    lemma_append_attributes(so_far2, piece3, "enable_dns_hostnames"@, "tags"@);
    let piece4 = optional_bool("enable_dns_support"@, vpc.enable_dns_support);
    let so_far4 = so_far3 + piece4;
    lemma_append_attributes(so_far3, piece4, "enable_dns_support"@, "tags"@);
    let piece5 = optional_bool("enable_classiclink"@, vpc.enable_classiclink);
    let so_far5 = so_far4 + piece5;
    lemma_append_attributes(so_far4, piece5, "enable_classiclink"@, "tags"@);
    let piece6 = optional_bool(
        "enable_classiclink_dns_support"@,
        vpc.enable_classiclink_dns_support,
    );
    let so_far6 = so_far5 + piece6;
    lemma_append_attributes(so_far5, piece6, "enable_classiclink_dns_support"@, "tags"@);
    let piece7 = optional_bool(
        "assign_generated_ipv6_cidr_block"@,
        vpc.assign_generated_ipv6_cidr_block,
    );
    let so_far7 = so_far6 + piece7;
    lemma_append_attributes(so_far6, piece7, "assign_generated_ipv6_cidr_block"@, "tags"@);
    lemma_tags_absent_or_present(vpc.tags);
    let rest = Seq::<StructureView>::empty();
    match vpc.tags {
        None => {
            lemma_no_attribute_in_concat(so_far7, rest, "tags"@);
            assert(vpc.spec_block().body =~= so_far7 + rest);
            lemma_value_absent(vpc.spec_block().body, "tags"@);
        },
        Some(tags) => {
            let object = tags_object(tags@);
            if tags@.len() == 0 {
                assert(object->Object_0 =~= Seq::empty());
            }
            assert(vpc.spec_block().body =~= so_far7 + attribute("tags"@, object) + rest);
            lemma_value_present(so_far7, "tags"@, object, rest);
        },
    }
}

/// A lookup of a network without optional fields compiles to a block with an
/// empty body.
pub proof fn lemma_bare_vpc_data_source(lookup: VpcDataSource)
    requires
        lookup.id is None,
        lookup.cidr_block is None,
        lookup.owner_id is None,
        lookup.enable_dns_hostnames is None,
        lookup.enable_dns_support is None,
        lookup.tags is None,
        lookup.filter is None,
    ensures
        lookup.spec_block().body == Seq::<StructureView>::empty(),
{
    assert(lookup.spec_block().body =~= Seq::<StructureView>::empty());
}

/// A lookup of a network without tags compiles to a block without a `tags`
/// attribute. With tags, the block has the attribute `tags` with the object of
/// the tags, which is the empty object where the map is empty.
pub proof fn lemma_vpc_data_source_tags(lookup: VpcDataSource)
    ensures
        lookup.tags is None ==> lookup.spec_block().value_of("tags"@) is None,
        lookup.tags is Some ==> lookup.spec_block().value_of("tags"@) == Some(
            tags_object(lookup.tags->Some_0@),
        ),
        lookup.tags is Some && lookup.tags->Some_0@.len() == 0 ==> lookup.spec_block().value_of(
            "tags"@,
        ) == Some(ExprView::Object(Seq::empty())),
{
    reveal_strlit("tags");
    reveal_strlit("cidr_block");
    reveal_strlit("enable_dns_hostnames");
    reveal_strlit("enable_dns_support");
    reveal_strlit("id");
    reveal_strlit("owner_id");
    assert("tags"@.len() == 4 && "tags"@[0] == 't');
    assert("cidr_block"@.len() == 10);
    assert("enable_dns_hostnames"@.len() == 20);
    assert("enable_dns_support"@.len() == 18);
    assert("id"@.len() == 2);
    assert("owner_id"@.len() == 8);
    let so_far0 = Seq::<StructureView>::empty();
    assert(no_attribute_named(so_far0, "tags"@));
    let piece1 = optional_string("id"@, lookup.id);
    let so_far1 = so_far0 + piece1;
    lemma_append_attributes(so_far0, piece1, "id"@, "tags"@);
    let piece2 = optional_string("cidr_block"@, lookup.cidr_block);
    let so_far2 = so_far1 + piece2;
    lemma_append_attributes(so_far1, piece2, "cidr_block"@, "tags"@);
    let piece3 = optional_string("owner_id"@, lookup.owner_id);
    let so_far3 = so_far2 + piece3;
    lemma_append_attributes(so_far2, piece3, "owner_id"@, "tags"@);
    let piece4 = optional_bool("enable_dns_hostnames"@, lookup.enable_dns_hostnames);
    let so_far4 = so_far3 + piece4;
    lemma_append_attributes(so_far3, piece4, "enable_dns_hostnames"@, "tags"@);
    let piece5 = optional_bool("enable_dns_support"@, lookup.enable_dns_support);
    let so_far5 = so_far4 + piece5;
    lemma_append_attributes(so_far4, piece5, "enable_dns_support"@, "tags"@);
    lemma_tags_absent_or_present(lookup.tags);
    let rest = optional_filters(lookup.filter);
    let blocks = match lookup.filter {
        Some(list) => filter_views(list@),
        None => Seq::<BlockView>::empty(),
    };
    assert(rest =~= nested_all(blocks));
    assert(no_attribute_named(rest, "tags"@));
    match lookup.tags {
        None => {
            lemma_no_attribute_in_concat(so_far5, rest, "tags"@);
            assert(lookup.spec_block().body =~= so_far5 + rest);
            lemma_value_absent(lookup.spec_block().body, "tags"@);
        },
        Some(tags) => {
            let object = tags_object(tags@);
            if tags@.len() == 0 {
                assert(object->Object_0 =~= Seq::empty());
            }
            assert(lookup.spec_block().body =~= so_far5 + attribute("tags"@, object) + rest);
            lemma_value_present(so_far5, "tags"@, object, rest);
        },
    }
}

/// The nested blocks of the block that the lookup of a network compiles to are
/// the blocks of its filters, one for each filter and in the order of the
/// list; without a list of filters there is none.
pub proof fn lemma_vpc_data_source_filters(lookup: VpcDataSource)
    ensures
        lookup.spec_block().nested_blocks() == match lookup.filter {
            Some(list) => filter_views(list@),
            None => Seq::<BlockView>::empty(),
        },
{
    let so_far0 = Seq::<StructureView>::empty();
    assert(no_attribute_named(so_far0, "filter"@));
    let piece1 = optional_string("id"@, lookup.id);
    let so_far1 = so_far0 + piece1;
    lemma_append_attributes(so_far0, piece1, "id"@, "filter"@);
    let piece2 = optional_string("cidr_block"@, lookup.cidr_block);
    let so_far2 = so_far1 + piece2;
    lemma_append_attributes(so_far1, piece2, "cidr_block"@, "filter"@);
    let piece3 = optional_string("owner_id"@, lookup.owner_id);
    let so_far3 = so_far2 + piece3;
    lemma_append_attributes(so_far2, piece3, "owner_id"@, "filter"@);
    let piece4 = optional_bool("enable_dns_hostnames"@, lookup.enable_dns_hostnames);
    let so_far4 = so_far3 + piece4;
    lemma_append_attributes(so_far3, piece4, "enable_dns_hostnames"@, "filter"@);
    let piece5 = optional_bool("enable_dns_support"@, lookup.enable_dns_support);
    let so_far5 = so_far4 + piece5;
    lemma_append_attributes(so_far4, piece5, "enable_dns_support"@, "filter"@);
    let piece6 = optional_tags(lookup.tags);
    let so_far6 = so_far5 + piece6;
    lemma_append_attributes(so_far5, piece6, "tags"@, "filter"@);
    let blocks = match lookup.filter {
        Some(list) => filter_views(list@),
        None => Seq::<BlockView>::empty(),
    };
    assert(optional_filters(lookup.filter) =~= nested_all(blocks));
    assert(lookup.spec_block().body =~= so_far6 + nested_all(blocks));
    lemma_blocks_after_attributes(so_far6, blocks);
}

/// An elastic IP address without optional fields compiles to a block with an
/// empty body.
pub proof fn lemma_bare_elastic_ip(eip: ElasticIp)
    requires
        eip.domain is None,
        eip.instance is None,
        eip.network_interface is None,
        eip.public_ipv4_pool is None,
        eip.customer_owned_ipv4_pool is None,
        eip.associate_with_private_ip is None,
        eip.address is None,
        eip.tags is None,
    ensures
        eip.spec_block().body == Seq::<StructureView>::empty(),
{
    assert(eip.spec_block().body =~= Seq::<StructureView>::empty());
}

/// An elastic IP address without tags compiles to a block without a `tags`
/// attribute. With tags, the block has the attribute `tags` with the object of
/// the tags, which is the empty object where the map is empty.
pub proof fn lemma_elastic_ip_tags(eip: ElasticIp)
    ensures
        eip.tags is None ==> eip.spec_block().value_of("tags"@) is None,
        eip.tags is Some ==> eip.spec_block().value_of("tags"@) == Some(
            tags_object(eip.tags->Some_0@),
        ),
        eip.tags is Some && eip.tags->Some_0@.len() == 0 ==> eip.spec_block().value_of(
            "tags"@,
        ) == Some(ExprView::Object(Seq::empty())),
{
    reveal_strlit("tags");
    reveal_strlit("address");
    reveal_strlit("associate_with_private_ip");
    reveal_strlit("customer_owned_ipv4_pool");
    reveal_strlit("domain");
    reveal_strlit("instance");
    reveal_strlit("network_interface");
    reveal_strlit("public_ipv4_pool");
    assert("tags"@.len() == 4 && "tags"@[0] == 't');
    assert("address"@.len() == 7);
    assert("associate_with_private_ip"@.len() == 25);
    assert("customer_owned_ipv4_pool"@.len() == 24);
    assert("domain"@.len() == 6);
    assert("instance"@.len() == 8);
    assert("network_interface"@.len() == 17);
    assert("public_ipv4_pool"@.len() == 16);
    let so_far0 = Seq::<StructureView>::empty();
    assert(no_attribute_named(so_far0, "tags"@));
    let piece1 = optional_string("domain"@, eip.domain);
    let so_far1 = so_far0 + piece1;
    lemma_append_attributes(so_far0, piece1, "domain"@, "tags"@);
    let piece2 = optional_string("instance"@, eip.instance);
    let so_far2 = so_far1 + piece2;
    lemma_append_attributes(so_far1, piece2, "instance"@, "tags"@);
    let piece3 = optional_string("network_interface"@, eip.network_interface);
    let so_far3 = so_far2 + piece3;
    lemma_append_attributes(so_far2, piece3, "network_interface"@, "tags"@);
    let piece4 = optional_string("public_ipv4_pool"@, eip.public_ipv4_pool);
    let so_far4 = so_far3 + piece4;
    lemma_append_attributes(so_far3, piece4, "public_ipv4_pool"@, "tags"@);
    let piece5 = optional_string("customer_owned_ipv4_pool"@, eip.customer_owned_ipv4_pool);
    let so_far5 = so_far4 + piece5;
    lemma_append_attributes(so_far4, piece5, "customer_owned_ipv4_pool"@, "tags"@);
    let piece6 = optional_string("associate_with_private_ip"@, eip.associate_with_private_ip);
    let so_far6 = so_far5 + piece6;
    lemma_append_attributes(so_far5, piece6, "associate_with_private_ip"@, "tags"@);
    let piece7 = optional_string("address"@, eip.address);
    let so_far7 = so_far6 + piece7;
    lemma_append_attributes(so_far6, piece7, "address"@, "tags"@);
    lemma_tags_absent_or_present(eip.tags);
    let rest = Seq::<StructureView>::empty();
    match eip.tags {
        None => {
            lemma_no_attribute_in_concat(so_far7, rest, "tags"@);
            assert(eip.spec_block().body =~= so_far7 + rest);
            lemma_value_absent(eip.spec_block().body, "tags"@);
        },
        Some(tags) => {
            let object = tags_object(tags@);
            if tags@.len() == 0 {
                assert(object->Object_0 =~= Seq::empty());
            }
            assert(eip.spec_block().body =~= so_far7 + attribute("tags"@, object) + rest);
            lemma_value_present(so_far7, "tags"@, object, rest);
        },
    }
}

/// The block that a network compiles to is handed to the renderer as it is:
/// its block type and its keys are plain identifiers, and the tags have no key
/// twice.
pub proof fn lemma_vpc_is_kept(vpc: Vpc)
    requires
        vpc.tags is Some ==> distinct_keys(vpc.tags->Some_0@),
    ensures
        is_kept_block(vpc.spec_block()),
        lowered_block(vpc.spec_block()) == vpc.spec_block(),
{
    reveal_strlit("resource");
    reveal_strlit("assign_generated_ipv6_cidr_block");
    reveal_strlit("cidr_block");
    reveal_strlit("enable_classiclink");
    reveal_strlit("enable_classiclink_dns_support");
    reveal_strlit("enable_dns_hostnames");
    reveal_strlit("enable_dns_support");
    reveal_strlit("instance_tenancy");
    reveal_strlit("tags");
    let so_far0 = Seq::<StructureView>::empty();
    let piece1 = attribute("cidr_block"@, ExprView::String(vpc.cidr_block.spec_notation()));
    assert(all_kept(piece1));
    let so_far1 = so_far0 + piece1;
    lemma_kept_concat(so_far0, piece1);
    let piece2 = optional_string("instance_tenancy"@, vpc.instance_tenancy);
    assert(all_kept(piece2));
    let so_far2 = so_far1 + piece2;
    lemma_kept_concat(so_far1, piece2);
    let piece3 = optional_bool("enable_dns_hostnames"@, vpc.enable_dns_hostnames);
    assert(all_kept(piece3));
    let so_far3 = so_far2 + piece3;
    lemma_kept_concat(so_far2, piece3);
    let piece4 = optional_bool("enable_dns_support"@, vpc.enable_dns_support);
    assert(all_kept(piece4));
    let so_far4 = so_far3 + piece4;
    lemma_kept_concat(so_far3, piece4);
    let piece5 = optional_bool("enable_classiclink"@, vpc.enable_classiclink);
    assert(all_kept(piece5));
    let so_far5 = so_far4 + piece5;
    lemma_kept_concat(so_far4, piece5);
    let piece6 = optional_bool(
        "enable_classiclink_dns_support"@,
        vpc.enable_classiclink_dns_support,
    );
    assert(all_kept(piece6));
    let so_far6 = so_far5 + piece6;
    lemma_kept_concat(so_far5, piece6);
    let piece7 = optional_bool(
        "assign_generated_ipv6_cidr_block"@,
        vpc.assign_generated_ipv6_cidr_block,
    );
    assert(all_kept(piece7));
    let so_far7 = so_far6 + piece7;
    lemma_kept_concat(so_far6, piece7);
    let piece8 = optional_tags(vpc.tags);
    if let Some(tags) = vpc.tags {
        lemma_kept_tags(tags@);
    }
    assert(all_kept(piece8));
    let so_far8 = so_far7 + piece8;
    lemma_kept_concat(so_far7, piece8);
    assert(vpc.spec_block().body =~= so_far8);
    lemma_kept_block(vpc.spec_block());
}

/// The block that a lookup of a network compiles to is handed to the renderer
/// as it is: its block type and its keys are plain identifiers, and the tags
/// have no key twice.
pub proof fn lemma_vpc_data_source_is_kept(lookup: VpcDataSource)
    requires
        lookup.tags is Some ==> distinct_keys(lookup.tags->Some_0@),
    ensures
        is_kept_block(lookup.spec_block()),
        lowered_block(lookup.spec_block()) == lookup.spec_block(),
{
    reveal_strlit("data");
    reveal_strlit("cidr_block");
    reveal_strlit("enable_dns_hostnames");
    reveal_strlit("enable_dns_support");
    reveal_strlit("id");
    reveal_strlit("owner_id");
    reveal_strlit("tags");
    let so_far0 = Seq::<StructureView>::empty();
    let piece1 = optional_string("id"@, lookup.id);
    assert(all_kept(piece1));
    let so_far1 = so_far0 + piece1;
    lemma_kept_concat(so_far0, piece1);
    let piece2 = optional_string("cidr_block"@, lookup.cidr_block);
    assert(all_kept(piece2));
    let so_far2 = so_far1 + piece2;
    lemma_kept_concat(so_far1, piece2);
    let piece3 = optional_string("owner_id"@, lookup.owner_id);
    assert(all_kept(piece3));
    let so_far3 = so_far2 + piece3;
    lemma_kept_concat(so_far2, piece3);
    let piece4 = optional_bool("enable_dns_hostnames"@, lookup.enable_dns_hostnames);
    assert(all_kept(piece4));
    let so_far4 = so_far3 + piece4;
    lemma_kept_concat(so_far3, piece4);
    let piece5 = optional_bool("enable_dns_support"@, lookup.enable_dns_support);
    assert(all_kept(piece5));
    let so_far5 = so_far4 + piece5;
    lemma_kept_concat(so_far4, piece5);
    let piece6 = optional_tags(lookup.tags);
    if let Some(tags) = lookup.tags {
        lemma_kept_tags(tags@);
    }
    assert(all_kept(piece6));
    let so_far6 = so_far5 + piece6;
    lemma_kept_concat(so_far5, piece6);
    let piece7 = optional_filters(lookup.filter);
    if let Some(list) = lookup.filter {
        assert forall|i: int| 0 <= i < piece7.len() implies is_kept_structure(
            #[trigger] piece7[i],
        ) by {
            lemma_kept_filter(list@[i].name@, strings_view(list@[i].values@));
        }
    }
    assert(all_kept(piece7));
    let so_far7 = so_far6 + piece7;
    lemma_kept_concat(so_far6, piece7);
    assert(lookup.spec_block().body =~= so_far7);
    lemma_kept_block(lookup.spec_block());
}

/// The block that an elastic IP address compiles to is handed to the renderer
/// as it is: its block type and its keys are plain identifiers, and the tags
/// have no key twice.
pub proof fn lemma_elastic_ip_is_kept(eip: ElasticIp)
    requires
        eip.tags is Some ==> distinct_keys(eip.tags->Some_0@),
    ensures
        is_kept_block(eip.spec_block()),
        lowered_block(eip.spec_block()) == eip.spec_block(),
{
    reveal_strlit("resource");
    reveal_strlit("address");
    reveal_strlit("associate_with_private_ip");
    reveal_strlit("customer_owned_ipv4_pool");
    reveal_strlit("domain");
    reveal_strlit("instance");
    reveal_strlit("network_interface");
    reveal_strlit("public_ipv4_pool");
    reveal_strlit("tags");
    let so_far0 = Seq::<StructureView>::empty();
    let piece1 = optional_string("domain"@, eip.domain);
    assert(all_kept(piece1));
    let so_far1 = so_far0 + piece1;
    lemma_kept_concat(so_far0, piece1);
    let piece2 = optional_string("instance"@, eip.instance);
    assert(all_kept(piece2));
    let so_far2 = so_far1 + piece2;
    lemma_kept_concat(so_far1, piece2);
    let piece3 = optional_string("network_interface"@, eip.network_interface);
    assert(all_kept(piece3));
    let so_far3 = so_far2 + piece3;
    lemma_kept_concat(so_far2, piece3);
    let piece4 = optional_string("public_ipv4_pool"@, eip.public_ipv4_pool);
    assert(all_kept(piece4));
    let so_far4 = so_far3 + piece4;
    lemma_kept_concat(so_far3, piece4);
    let piece5 = optional_string("customer_owned_ipv4_pool"@, eip.customer_owned_ipv4_pool);
    assert(all_kept(piece5));
    let so_far5 = so_far4 + piece5;
    lemma_kept_concat(so_far4, piece5);
    let piece6 = optional_string("associate_with_private_ip"@, eip.associate_with_private_ip);
    assert(all_kept(piece6));
    let so_far6 = so_far5 + piece6;
    lemma_kept_concat(so_far5, piece6);
    let piece7 = optional_string("address"@, eip.address);
    assert(all_kept(piece7));
    let so_far7 = so_far6 + piece7;
    lemma_kept_concat(so_far6, piece7);
    let piece8 = optional_tags(eip.tags);
    if let Some(tags) = eip.tags {
        lemma_kept_tags(tags@);
    }
    assert(all_kept(piece8));
    let so_far8 = so_far7 + piece8;
    lemma_kept_concat(so_far7, piece8);
    assert(eip.spec_block().body =~= so_far8);
    lemma_kept_block(eip.spec_block());
}

} // verus!
