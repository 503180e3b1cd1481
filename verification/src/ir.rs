//! The generic configuration tree that every resource compiles into: blocks
//! with labels, holding attributes and nested blocks in the order in which
//! they were added.

use vstd::prelude::*;

verus! {

/// The value of an attribute.
#[derive(Debug, PartialEq, Eq)]
pub enum Expr {
    /// A literal string.
    String(String),
    /// A literal boolean.
    Bool(bool),
    /// A list of values.
    Array(Vec<Expr>),
    /// A mapping from string keys to values, in the order of insertion.
    Object(Vec<(String, Expr)>),
    /// A token that is written out bare and refers to an attribute of
    /// another resource.
    RawReference(String),
}

/// The mathematical value of an [`Expr`].
pub enum ExprView {
    String(Seq<char>),
    Bool(bool),
    Array(Seq<ExprView>),
    Object(Seq<(Seq<char>, ExprView)>),
    RawReference(Seq<char>),
}

/// The value of an expression: the same tree with the text of each string.
pub open spec fn expr_view(expr: Expr) -> ExprView
    decreases expr,
{
    match expr {
        Expr::String(s) => ExprView::String(s@),
        Expr::Bool(b) => ExprView::Bool(b),
        Expr::Array(items) => ExprView::Array(
            Seq::new(
                items@.len(),
                |i: int|
                    if 0 <= i < items@.len() {
                        expr_view(items@[i])
                    } else {
                        arbitrary()
                    },
            ),
        ),
        Expr::Object(entries) => ExprView::Object(
            Seq::new(
                entries@.len(),
                |i: int|
                    if 0 <= i < entries@.len() {
                        (entries@[i].0@, expr_view(entries@[i].1))
                    } else {
                        arbitrary()
                    },
            ),
        ),
        Expr::RawReference(token) => ExprView::RawReference(token@),
    }
}

impl View for Expr {
    type V = ExprView;

    open spec fn view(&self) -> ExprView {
        expr_view(*self)
    }
}

/// The values of a list of expressions.
pub open spec fn exprs_view(items: Seq<Expr>) -> Seq<ExprView> {
    Seq::new(items.len(), |i: int| items[i]@)
}

/// The values of a list of keyed expressions.
pub open spec fn entries_view(entries: Seq<(String, Expr)>) -> Seq<(Seq<char>, ExprView)> {
    Seq::new(entries.len(), |i: int| (entries[i].0@, entries[i].1@))
}

/// The value of an array is the array of the values of its items.
pub proof fn lemma_array_view(items: Vec<Expr>)
    ensures
        Expr::Array(items)@ == ExprView::Array(exprs_view(items@)),
{
    assert(Expr::Array(items)@->Array_0 =~= exprs_view(items@));
}

/// The value of an object is the list of its keys with the values of its
/// entries.
pub proof fn lemma_object_view(entries: Vec<(String, Expr)>)
    ensures
        Expr::Object(entries)@ == ExprView::Object(entries_view(entries@)),
{
    assert(Expr::Object(entries)@->Object_0 =~= entries_view(entries@));
}

/// A named value in the body of a block.
#[derive(Debug, PartialEq, Eq)]
pub struct Attribute {
    /// The name of the attribute.
    pub key: String,
    /// Its value.
    pub expr: Expr,
}

/// One item in the body of a block.
#[derive(Debug, PartialEq, Eq)]
pub enum Structure {
    /// A named value.
    Attribute(Attribute),
    /// A nested block.
    Block(Block),
}

/// A typed, labelled container of attributes and nested blocks. The body
/// keeps its items in the order in which they were added.
#[derive(Debug, PartialEq, Eq)]
pub struct Block {
    /// The kind of block, such as `resource` or `data`.
    pub block_type: String,
    /// The positional labels that follow the block type.
    pub labels: Vec<String>,
    /// The attributes and nested blocks, in insertion order.
    pub body: Vec<Structure>,
}

/// The mathematical value of an [`Attribute`].
pub struct AttributeView {
    pub key: Seq<char>,
    pub expr: ExprView,
}

/// The mathematical value of a [`Structure`].
pub enum StructureView {
    Attribute(AttributeView),
    Block(BlockView),
}

/// The mathematical value of a [`Block`].
pub struct BlockView {
    pub block_type: Seq<char>,
    pub labels: Seq<Seq<char>>,
    pub body: Seq<StructureView>,
}

impl View for Attribute {
    type V = AttributeView;

    open spec fn view(&self) -> AttributeView {
        AttributeView { key: self.key@, expr: self.expr@ }
    }
}

/// The values of a list of strings.
pub open spec fn strings_view(strings: Seq<String>) -> Seq<Seq<char>> {
    Seq::new(strings.len(), |i: int| strings[i]@)
}

/// The value of a body item.
pub open spec fn structure_view(item: Structure) -> StructureView
    decreases item,
{
    match item {
        Structure::Attribute(attr) => StructureView::Attribute(attr@),
        Structure::Block(block) => StructureView::Block(block_view(block)),
    }
}

/// The value of a block: its type, its labels and the values of its body
/// items, in order.
pub open spec fn block_view(block: Block) -> BlockView
    decreases block,
{
    BlockView {
        block_type: block.block_type@,
        labels: strings_view(block.labels@),
        body: Seq::new(
            block.body@.len(),
            |i: int|
                if 0 <= i < block.body@.len() {
                    structure_view(block.body@[i])
                } else {
                    arbitrary()
                },
        ),
    }
}

/// The values of a list of body items.
pub open spec fn structures_view(items: Seq<Structure>) -> Seq<StructureView> {
    Seq::new(items.len(), |i: int| items[i]@)
}

/// The body of a block's value is the list of the values of its items.
pub proof fn lemma_block_view(block: Block)
    ensures
        block@.block_type == block.block_type@,
        block@.labels == strings_view(block.labels@),
        block@.body == structures_view(block.body@),
{
    assert(block@.body =~= structures_view(block.body@));
}

impl View for Structure {
    type V = StructureView;

    open spec fn view(&self) -> StructureView {
        structure_view(*self)
    }
}

impl View for Block {
    type V = BlockView;

    open spec fn view(&self) -> BlockView {
        block_view(*self)
    }
}

impl BlockView {
    /// The block of the given type with no labels and an empty body.
    pub open spec fn new(block_type: Seq<char>) -> BlockView {
        BlockView { block_type, labels: Seq::empty(), body: Seq::empty() }
    }

    /// The block with one more label at the end.
    pub open spec fn label(self, label: Seq<char>) -> BlockView {
        BlockView { labels: self.labels.push(label), ..self }
    }

    /// The block with more items at the end of its body.
    pub open spec fn items(self, items: Seq<StructureView>) -> BlockView {
        BlockView { body: self.body + items, ..self }
    }

    /// The attributes of the body, in order, without the nested blocks.
    pub open spec fn attributes(self) -> Seq<AttributeView> {
        attributes_of(self.body)
    }

    /// The nested blocks of the body, in order, without the attributes.
    pub open spec fn nested_blocks(self) -> Seq<BlockView> {
        blocks_of(self.body)
    }

    /// The value of the first attribute of the body with the key `key`.
    pub open spec fn value_of(self, key: Seq<char>) -> Option<ExprView> {
        first_value(self.body, key)
    }
}

/// The value of the first attribute with the key `key` among the items.
pub open spec fn first_value(items: Seq<StructureView>, key: Seq<char>) -> Option<ExprView>
    decreases items.len(),
{
    if items.len() == 0 {
        None
    } else if items[0] is Attribute && items[0]->Attribute_0.key == key {
        Some(items[0]->Attribute_0.expr)
    } else {
        first_value(items.drop_first(), key)
    }
}

/// Whether no item is an attribute with the key `key`.
pub open spec fn no_attribute_named(items: Seq<StructureView>, key: Seq<char>) -> bool {
    forall|i: int|
        0 <= i < items.len() ==> !((#[trigger] items[i]) is Attribute && items[i]->Attribute_0.key
            == key)
}

/// Where no attribute has the key, the key has no value.
pub proof fn lemma_value_absent(items: Seq<StructureView>, key: Seq<char>)
    requires
        no_attribute_named(items, key),
    ensures
        first_value(items, key) is None,
    decreases items.len(),
{
    if items.len() > 0 {
        assert(!(items[0] is Attribute && items[0]->Attribute_0.key == key));
        let rest = items.drop_first();
        assert forall|i: int| 0 <= i < rest.len() implies !((#[trigger] rest[i]) is Attribute
            && rest[i]->Attribute_0.key == key) by {
            assert(rest[i] == items[i + 1]);
        }
        lemma_value_absent(rest, key);
    }
}

/// Where no attribute before it has the key, an attribute gives the key its
/// value, whatever follows.
pub proof fn lemma_value_present(
    before: Seq<StructureView>,
    key: Seq<char>,
    expr: ExprView,
    after: Seq<StructureView>,
)
    requires
        no_attribute_named(before, key),
    ensures
        first_value(before + attribute(key, expr) + after, key) == Some(expr),
    decreases before.len(),
{
    let items = before + attribute(key, expr) + after;
    if before.len() == 0 {
        assert(items[0] == attribute(key, expr)[0]);
    } else {
        assert(items[0] == before[0]);
        let rest = before.drop_first();
        assert forall|i: int| 0 <= i < rest.len() implies !((#[trigger] rest[i]) is Attribute
            && rest[i]->Attribute_0.key == key) by {
            assert(rest[i] == before[i + 1]);
        }
        assert(items.drop_first() =~= rest + attribute(key, expr) + after);
        lemma_value_present(rest, key, expr, after);
    }
}

/// The attributes among the items, in order.
pub open spec fn attributes_of(items: Seq<StructureView>) -> Seq<AttributeView>
    decreases items.len(),
{
    if items.len() == 0 {
        Seq::empty()
    } else {
        match items.last() {
            StructureView::Attribute(attr) => attributes_of(items.drop_last()).push(attr),
            StructureView::Block(_) => attributes_of(items.drop_last()),
        }
    }
}

/// The nested blocks among the items, in order.
pub open spec fn blocks_of(items: Seq<StructureView>) -> Seq<BlockView>
    decreases items.len(),
{
    if items.len() == 0 {
        Seq::empty()
    } else {
        match items.last() {
            StructureView::Attribute(_) => blocks_of(items.drop_last()),
            StructureView::Block(block) => blocks_of(items.drop_last()).push(block),
        }
    }
}

/// Whether every item is an attribute.
pub open spec fn all_attributes(items: Seq<StructureView>) -> bool {
    forall|i: int| 0 <= i < items.len() ==> (#[trigger] items[i]) is Attribute
}

/// The attributes and the nested blocks of two lists of items put together
/// are those of the first list followed by those of the second.
pub proof fn lemma_projections_of_concat(first: Seq<StructureView>, second: Seq<StructureView>)
    ensures
        attributes_of(first + second) == attributes_of(first) + attributes_of(second),
        blocks_of(first + second) == blocks_of(first) + blocks_of(second),
    decreases second.len(),
{
    if second.len() == 0 {
        assert(first + second =~= first);
        assert(attributes_of(first) + attributes_of(second) =~= attributes_of(first));
        assert(blocks_of(first) + blocks_of(second) =~= blocks_of(first));
    } else {
        let all = first + second;
        assert(all.drop_last() =~= first + second.drop_last());
        assert(all.last() == second.last());
        lemma_projections_of_concat(first, second.drop_last());
        match second.last() {
            StructureView::Attribute(attr) => {
                assert(attributes_of(all) =~= attributes_of(first) + attributes_of(second));
            },
            StructureView::Block(block) => {
                assert(blocks_of(all) =~= blocks_of(first) + blocks_of(second));
            },
        }
    }
}

/// A list of attributes holds no nested block.
pub proof fn lemma_no_blocks_among_attributes(items: Seq<StructureView>)
    requires
        all_attributes(items),
    ensures
        blocks_of(items) == Seq::<BlockView>::empty(),
    decreases items.len(),
{
    if items.len() > 0 {
        assert(items.last() is Attribute);
        lemma_no_blocks_among_attributes(items.drop_last());
    }
}

/// The nested blocks of a list of blocks are these blocks, in their order,
/// and it holds no attribute.
pub proof fn lemma_blocks_of_nested(blocks: Seq<BlockView>)
    ensures
        blocks_of(nested_all(blocks)) == blocks,
        attributes_of(nested_all(blocks)) == Seq::<AttributeView>::empty(),
    decreases blocks.len(),
{
    let items = nested_all(blocks);
    if blocks.len() > 0 {
        assert(items.drop_last() =~= nested_all(blocks.drop_last()));
        assert(items.last() == StructureView::Block(blocks.last()));
        lemma_blocks_of_nested(blocks.drop_last());
        assert(blocks_of(items) =~= blocks);
    } else {
        assert(blocks_of(items) =~= blocks);
    }
}

/// Where attributes are followed by nested blocks, the nested blocks of the
/// whole are exactly those blocks, in their order.
pub proof fn lemma_blocks_after_attributes(attrs: Seq<StructureView>, blocks: Seq<BlockView>)
    requires
        all_attributes(attrs),
    ensures
        blocks_of(attrs + nested_all(blocks)) == blocks,
{
    lemma_projections_of_concat(attrs, nested_all(blocks));
    lemma_no_blocks_among_attributes(attrs);
    lemma_blocks_of_nested(blocks);
    assert(Seq::<BlockView>::empty() + blocks =~= blocks);
}

/// The body item for an attribute.
pub open spec fn attribute(key: Seq<char>, expr: ExprView) -> Seq<StructureView> {
    seq![StructureView::Attribute(AttributeView { key, expr })]
}

/// The body item for a nested block.
pub open spec fn nested(block: BlockView) -> Seq<StructureView> {
    seq![StructureView::Block(block)]
}

/// The body items for a list of nested blocks, in order.
pub open spec fn nested_all(blocks: Seq<BlockView>) -> Seq<StructureView> {
    blocks.map_values(|block: BlockView| StructureView::Block(block))
}

/// The values of a list of blocks.
pub open spec fn blocks_view(blocks: Seq<Block>) -> Seq<BlockView> {
    Seq::new(blocks.len(), |i: int| blocks[i]@)
}

/// A block under construction. Labels, attributes and nested blocks are
/// added one call at a time; `build` hands out the finished block.
#[derive(Debug)]
pub struct Builder {
    block_type: String,
    labels: Vec<String>,
    body: Vec<Structure>,
}

impl View for Builder {
    type V = BlockView;

    closed spec fn view(&self) -> BlockView {
        block_view(Block { block_type: self.block_type, labels: self.labels, body: self.body })
    }
}

/// The value of an optional expression.
pub open spec fn optional_view(expr: Option<&Expr>) -> Option<ExprView> {
    match expr {
        Some(e) => Some(e@),
        None => None,
    }
}

/// The values of a list of borrowed attributes.
pub open spec fn attribute_refs_view(attrs: Seq<&Attribute>) -> Seq<AttributeView> {
    Seq::new(attrs.len(), |i: int| attrs[i]@)
}

/// The values of a list of borrowed blocks.
pub open spec fn block_refs_view(blocks: Seq<&Block>) -> Seq<BlockView> {
    Seq::new(blocks.len(), |i: int| blocks[i]@)
}

impl Block {
    /// The attributes of the body, in order, without the nested blocks.
    pub fn attributes(&self) -> (attrs: Vec<&Attribute>)
        ensures
            attribute_refs_view(attrs@) == self@.attributes(),
    {
        let mut attrs: Vec<&Attribute> = Vec::new();
        let mut i: usize = 0;
        proof {
            lemma_block_view(*self);
            assert(attribute_refs_view(attrs@) =~= attributes_of(self@.body.take(0)));
        }
        while i < self.body.len()
            invariant
                i <= self.body@.len(),
                self@.body == structures_view(self.body@),
                attribute_refs_view(attrs@) == attributes_of(self@.body.take(i as int)),
            decreases self.body@.len() - i,
        {
            let ghost before = attribute_refs_view(attrs@);
            proof {
                let next = self@.body.take(i + 1);
                assert(next.drop_last() =~= self@.body.take(i as int));
                assert(next.last() == self.body@[i as int]@);
            }
            match &self.body[i] {
                Structure::Attribute(attr) => {
                    attrs.push(attr);
                    assert(attribute_refs_view(attrs@) =~= before.push(attr@));
                },
                Structure::Block(_) => {},
            }
            i += 1;
        }
        assert(self@.body.take(self.body@.len() as int) =~= self@.body);
        attrs
    }

    /// The nested blocks of the body, in order, without the attributes.
    pub fn nested_blocks(&self) -> (blocks: Vec<&Block>)
        ensures
            block_refs_view(blocks@) == self@.nested_blocks(),
    {
        let mut blocks: Vec<&Block> = Vec::new();
        let mut i: usize = 0;
        proof {
            lemma_block_view(*self);
            assert(block_refs_view(blocks@) =~= blocks_of(self@.body.take(0)));
        }
        while i < self.body.len()
            invariant
                i <= self.body@.len(),
                self@.body == structures_view(self.body@),
                block_refs_view(blocks@) == blocks_of(self@.body.take(i as int)),
            decreases self.body@.len() - i,
        {
            let ghost before = block_refs_view(blocks@);
            proof {
                let next = self@.body.take(i + 1);
                assert(next.drop_last() =~= self@.body.take(i as int));
                assert(next.last() == self.body@[i as int]@);
            }
            match &self.body[i] {
                Structure::Attribute(_) => {},
                Structure::Block(block) => {
                    blocks.push(block);
                    assert(block_refs_view(blocks@) =~= before.push(block@));
                },
            }
            i += 1;
        }
        assert(self@.body.take(self.body@.len() as int) =~= self@.body);
        blocks
    }

    /// The value of the first attribute with the key `key`, if there is one.
    pub fn attribute(&self, key: &str) -> (value: Option<&Expr>)
        ensures
            optional_view(value) == self@.value_of(key@),
    {
        let wanted = String::from_str(key);
        let mut i: usize = 0;
        proof {
            lemma_block_view(*self);
            assert(self@.body.subrange(0, self.body@.len() as int) =~= self@.body);
        }
        while i < self.body.len()
            invariant
                i <= self.body@.len(),
                wanted@ == key@,
                self@.body == structures_view(self.body@),
                first_value(self@.body, key@) == first_value(
                    self@.body.subrange(i as int, self.body@.len() as int),
                    key@,
                ),
            decreases self.body@.len() - i,
        {
            let ghost rest = self@.body.subrange(i as int, self.body@.len() as int);
            proof {
                assert(rest[0] == self.body@[i as int]@);
                assert(rest.drop_first() =~= self@.body.subrange(i + 1, self.body@.len() as int));
            }
            match &self.body[i] {
                Structure::Attribute(attr) => {
                    if attr.key == wanted {
                        return Some(&attr.expr);
                    }
                },
                Structure::Block(_) => {},
            }
            i += 1;
        }
        None
    }

    /// Starts the construction of a block of the given type.
    pub fn builder(block_type: &str) -> (builder: Builder)
        ensures
            builder@ == BlockView::new(block_type@),
    {
        let builder = Builder {
            block_type: String::from_str(block_type),
            labels: Vec::new(),
            body: Vec::new(),
        };
        assert(builder@.labels =~= Seq::empty());
        assert(builder@.body =~= Seq::empty());
        builder
    }
}

impl Builder {
    /// Adds a label after those already present.
    pub fn add_label(self, label: &str) -> (builder: Builder)
        ensures
            builder@ == self@.label(label@),
    {
        let mut builder = self;
        builder.labels.push(String::from_str(label));
        assert(builder@.labels =~= self@.labels.push(label@));
        assert(builder@.body =~= self@.body);
        builder
    }

    /// Adds an attribute at the end of the body.
    pub fn add_attribute(self, key: &str, expr: Expr) -> (builder: Builder)
        ensures
            builder@ == self@.items(attribute(key@, expr@)),
    {
        let mut builder = self;
        builder.body.push(Structure::Attribute(Attribute { key: String::from_str(key), expr }));
        assert(builder@.labels =~= self@.labels);
        assert(builder@.body =~= self@.body + attribute(key@, expr@));
        builder
    }

    /// Adds a nested block at the end of the body.
    pub fn add_block(self, block: Block) -> (builder: Builder)
        ensures
            builder@ == self@.items(nested(block@)),
    {
        let mut builder = self;
        builder.body.push(Structure::Block(block));
        assert(builder@.labels =~= self@.labels);
        assert(builder@.body =~= self@.body + nested(block@));
        builder
    }

    /// Adds nested blocks at the end of the body, in their order.
    pub fn add_blocks(self, blocks: Vec<Block>) -> (builder: Builder)
        ensures
            builder@ == self@.items(nested_all(blocks_view(blocks@))),
    {
        let mut builder = self;
        let ghost all = blocks@;
        for block in iter: blocks
            invariant
                iter.seq() == all,
                builder@ == self@.items(nested_all(blocks_view(all.take(iter.index() as int)))),
        {
            let ghost before = builder@;
            let ghost k = iter.index() as int;
            builder.body.push(Structure::Block(block));
            proof {
                assert(builder@.labels =~= before.labels);
                assert(builder@.body =~= before.body + nested(block@));
                assert(nested_all(blocks_view(all.take(k + 1))) =~= nested_all(
                    blocks_view(all.take(k)),
                ) + nested(block@));
                assert(builder@.body =~= self@.body + nested_all(blocks_view(all.take(k + 1))));
            }
        }
        assert(all.take(all.len() as int) =~= all);
        builder
    }

    /// Ends the construction and hands out the block.
    pub fn build(self) -> (block: Block)
        ensures
            block@ == self@,
    {
        Block { block_type: self.block_type, labels: self.labels, body: self.body }
    }
}

impl Expr {
    fn duplicate(&self) -> (copy: Expr)
        ensures
            copy@ == self@,
        decreases self,
    {
        match self {
            Expr::String(text) => Expr::String(text.clone()),
            Expr::Bool(value) => Expr::Bool(*value),
            Expr::Array(items) => {
                let mut copies: Vec<Expr> = Vec::new();
                let mut i: usize = 0;
                while i < items.len()
                    invariant
                        i <= items@.len(),
                        copies@.len() == i,
                        *self == Expr::Array(*items),
                        forall|k: int| 0 <= k < i ==> (#[trigger] copies@[k])@ == items@[k]@,
                    decreases items@.len() - i,
                {
                    proof {
                        assert(self->Array_0 == *items);
                        assert(decreases_to!(self => self->Array_0));
                        assert(decreases_to!(self->Array_0 => self->Array_0@));
                        assert(decreases_to!(self->Array_0@ => self->Array_0@[i as int]));
                    }
                    copies.push(items[i].duplicate());
                    i += 1;
                }
                proof {
                    lemma_array_view(*items);
                    lemma_array_view(copies);
                    assert(exprs_view(copies@) =~= exprs_view(items@));
                }
                Expr::Array(copies)
            },
            Expr::Object(entries) => {
                let mut copies: Vec<(String, Expr)> = Vec::new();
                let mut i: usize = 0;
                while i < entries.len()
                    invariant
                        i <= entries@.len(),
                        copies@.len() == i,
                        *self == Expr::Object(*entries),
                        forall|k: int|
                            0 <= k < i ==> (#[trigger] copies@[k]).0@ == entries@[k].0@
                                && copies@[k].1@ == entries@[k].1@,
                    decreases entries@.len() - i,
                {
                    proof {
                        assert(self->Object_0 == *entries);
                        assert(decreases_to!(self => self->Object_0));
                        assert(decreases_to!(self->Object_0 => self->Object_0@));
                        assert(decreases_to!(self->Object_0@ => self->Object_0@[i as int]));
                        let ghost entry = self->Object_0@[i as int];
                        assert(decreases_to!(entry => entry.1));
                    }
                    copies.push((entries[i].0.clone(), entries[i].1.duplicate()));
                    i += 1;
                }
                proof {
                    lemma_object_view(*entries);
                    lemma_object_view(copies);
                    assert(entries_view(copies@) =~= entries_view(entries@));
                }
                Expr::Object(copies)
            },
            Expr::RawReference(token) => Expr::RawReference(token.clone()),
        }
    }
}

impl Clone for Expr {
    /// A copy with the same value.
    fn clone(&self) -> (copy: Expr)
        ensures
            copy@ == self@,
    {
        self.duplicate()
    }
}

impl Clone for Attribute {
    /// A copy with the same value.
    fn clone(&self) -> (copy: Attribute)
        ensures
            copy@ == self@,
    {
        Attribute { key: self.key.clone(), expr: self.expr.duplicate() }
    }
}

impl Block {
    fn duplicate(&self) -> (copy: Block)
        ensures
            copy@ == self@,
        decreases self,
    {
        let mut labels: Vec<String> = Vec::new();
        let mut i: usize = 0;
        while i < self.labels.len()
            invariant
                i <= self.labels@.len(),
                labels@.len() == i,
                forall|k: int| 0 <= k < i ==> (#[trigger] labels@[k])@ == self.labels@[k]@,
            decreases self.labels@.len() - i,
        {
            labels.push(self.labels[i].clone());
            i += 1;
        }
        let mut body: Vec<Structure> = Vec::new();
        let mut j: usize = 0;
        while j < self.body.len()
            invariant
                j <= self.body@.len(),
                body@.len() == j,
                forall|k: int| 0 <= k < j ==> (#[trigger] body@[k])@ == self.body@[k]@,
            decreases self.body@.len() - j,
        {
            let item = match &self.body[j] {
                Structure::Attribute(attr) => Structure::Attribute(attr.clone()),
                Structure::Block(block) => {
                    proof {
                        assert(decreases_to!(self => self.body));
                        assert(decreases_to!(self.body => self.body@));
                        assert(decreases_to!(self.body@ => self.body@[j as int]));
                        let ghost item = self.body@[j as int];
                        assert(decreases_to!(item => item->Block_0));
                    }
                    Structure::Block(block.duplicate())
                },
            };
            body.push(item);
            j += 1;
        }
        let copy = Block { block_type: self.block_type.clone(), labels, body };
        proof {
            lemma_block_view(*self);
            lemma_block_view(copy);
            assert(strings_view(copy.labels@) =~= strings_view(self.labels@));
            assert(structures_view(copy.body@) =~= structures_view(self.body@));
        }
        copy
    }
}

impl Clone for Block {
    /// A copy with the same value.
    fn clone(&self) -> (copy: Block)
        ensures
            copy@ == self@,
    {
        self.duplicate()
    }
}

impl Clone for Structure {
    /// A copy with the same value.
    fn clone(&self) -> (copy: Structure)
        ensures
            copy@ == self@,
    {
        match self {
            Structure::Attribute(attr) => Structure::Attribute(attr.clone()),
            Structure::Block(block) => Structure::Block(block.duplicate()),
        }
    }
}

} // verus!
