//! The way out of the library: a block of the configuration tree is rebuilt
//! with the `hcl` crate, as a body that holds the block and that the crate
//! renders as text.
//!
//! The values of the `hcl` crate are opaque here. What they hold is named by
//! the functions `expression_holds`, `builder_holds` and `body_holds`, and
//! the contracts of the small functions that call into the crate say how each
//! call changes what is held. Those contracts are taken from the crate's
//! source and are not proved.

use crate::aws::emit::{filter_view, string_array, tags_object};
use crate::aws::tags::{distinct_keys, inserted, inserted_all, lemma_inserted_distinct};
use crate::ir::{
    attribute, entries_view, exprs_view, lemma_array_view, lemma_object_view, nested,
    AttributeView, Block, BlockView, Expr, ExprView, Structure, StructureView,
};
use vstd::prelude::*;

verus! {

/// Declares `hcl::Expression`, the expression of the `hcl` crate, as a type
/// whose inside is not looked into.
#[verifier::external_type_specification]
#[verifier::external_body]
pub struct ExHclExpression(hcl::Expression);

/// Declares `hcl::Body`, the list of attributes and blocks of the `hcl`
/// crate, as a type whose inside is not looked into.
#[verifier::external_type_specification]
#[verifier::external_body]
pub struct ExHclBody(hcl::Body);

/// Declares `hcl::BlockBuilder`, the block under construction of the `hcl`
/// crate, as a type whose inside is not looked into.
#[verifier::external_type_specification]
#[verifier::external_body]
pub struct ExHclBlockBuilder(hcl::BlockBuilder);

/// What `hcl::Identifier::sanitized` makes of a string: the identifier that
/// the `hcl` crate keeps in place of the name of a block or of an attribute.
pub uninterp spec fn sanitized_identifier(raw: Seq<char>) -> Seq<char>;

/// Whether an identifier may begin with the character: a letter of the
/// Latin alphabet or an underscore.
pub open spec fn is_identifier_start(c: char) -> bool {
    ('a' <= c && c <= 'z') || ('A' <= c && c <= 'Z') || c == '_'
}

/// Whether an identifier may go on with the character: a letter of the Latin
/// alphabet, a digit, an underscore or a hyphen.
pub open spec fn is_identifier_continue(c: char) -> bool {
    is_identifier_start(c) || ('0' <= c && c <= '9') || c == '-'
}

/// Whether the string is an identifier made of Latin letters, digits,
/// underscores and hyphens alone.
pub open spec fn is_plain_identifier(name: Seq<char>) -> bool {
    &&& name.len() > 0
    &&& is_identifier_start(name[0])
    &&& forall|i: int| 1 <= i < name.len() ==> is_identifier_continue(#[trigger] name[i])
}

/// The identifier that the `hcl` crate keeps for a name: the name itself
/// where it is a plain identifier, and what the crate's sanitizing makes of
/// it otherwise.
pub open spec fn kept_identifier(name: Seq<char>) -> Seq<char> {
    if is_plain_identifier(name) {
        name
    } else {
        sanitized_identifier(name)
    }
}

/// What an expression of the `hcl` crate holds: `String` for its variant
/// `String`, `Bool` for `Bool`, `Array` for `Array` with what each item
/// holds, `Object` for `Object` with its string keys and what each value
/// holds, in the order of the object, and `RawReference` for a `Variable`
/// with the text of its name.
pub uninterp spec fn expression_holds(expr: hcl::Expression) -> ExprView;

/// What a block builder of the `hcl` crate holds: its identifier, its labels
/// and the items added to its body so far, in order.
pub uninterp spec fn builder_holds(builder: hcl::BlockBuilder) -> BlockView;

/// What a body of the `hcl` crate holds: its attributes and blocks, in order.
pub uninterp spec fn body_holds(body: hcl::Body) -> Seq<StructureView>;

/// What each expression of a list holds.
pub open spec fn expressions_hold(items: Seq<hcl::Expression>) -> Seq<ExprView> {
    Seq::new(items.len(), |i: int| expression_holds(items[i]))
}

/// The key and what the value holds, for each entry of a list.
pub open spec fn entries_hold(entries: Seq<(String, hcl::Expression)>) -> Seq<
    (Seq<char>, ExprView),
> {
    Seq::new(entries.len(), |i: int| (entries[i].0@, expression_holds(entries[i].1)))
}

/// Calls `hcl::Expression::from` on a `String`, which gives the variant
/// `String` with that text.
#[verifier::external_body]
fn hcl_string(text: String) -> (out: hcl::Expression)
    ensures
        expression_holds(out) == ExprView::String(text@),
{
    hcl::Expression::from(text)
}

/// Calls `hcl::Expression::from` on a `bool`, which gives the variant `Bool`
/// with that value.
#[verifier::external_body]
fn hcl_bool(value: bool) -> (out: hcl::Expression)
    ensures
        expression_holds(out) == ExprView::Bool(value),
{
    hcl::Expression::from(value)
}

/// Calls `hcl::Expression::from` on a vector of expressions, which gives the
/// variant `Array` with the same items in the same order.
#[verifier::external_body]
fn hcl_array(items: Vec<hcl::Expression>) -> (out: hcl::Expression)
    ensures
        expression_holds(out) == ExprView::Array(expressions_hold(items@)),
{
    hcl::Expression::from(items)
}

/// Calls `hcl::Expression::from_iter` on pairs of a key and a value, which
/// gives the variant `Object`. The crate inserts the pairs one after the
/// other into an empty ordered map with string keys: a new key goes to the
/// end, and a key that is there already keeps its place and takes the later
/// value.
#[verifier::external_body]
fn hcl_object(entries: Vec<(String, hcl::Expression)>) -> (out: hcl::Expression)
    ensures
        expression_holds(out) == ExprView::Object(
            inserted_all(Seq::empty(), entries_hold(entries@)),
        ),
{
    hcl::Expression::from_iter(entries)
}

/// Calls `hcl::Variable::unchecked` and `hcl::Expression::from`, which give
/// the variant `Variable` whose name is the token as it stands; the crate
/// writes such a name out bare.
#[verifier::external_body]
fn hcl_reference(token: String) -> (out: hcl::Expression)
    ensures
        expression_holds(out) == ExprView::RawReference(token@),
{
    hcl::Expression::from(hcl::expr::Variable::unchecked(token))
}

/// Calls `hcl::Block::builder`, which starts a block without labels and with
/// an empty body. The crate sanitizes the identifier, which leaves a plain
/// identifier as it is.
#[verifier::external_body]
fn hcl_builder(block_type: &str) -> (out: hcl::BlockBuilder)
    ensures
        builder_holds(out) == BlockView::new(
            (if is_plain_identifier(block_type@) {
                block_type@
            } else {
                sanitized_identifier(block_type@)
            }),
        ),
{
    hcl::Block::builder(block_type)
}

/// Calls `hcl::BlockBuilder::add_label`, which puts the label, as a quoted
/// string, after the labels already there.
#[verifier::external_body]
fn hcl_add_label(builder: hcl::BlockBuilder, label: &str) -> (out: hcl::BlockBuilder)
    ensures
        builder_holds(out) == builder_holds(builder).label(label@),
{
    builder.add_label(label)
}

/// Calls `hcl::BlockBuilder::add_attribute`, which puts the attribute at the
/// end of the body. The crate sanitizes the key, which leaves a plain
/// identifier as it is.
#[verifier::external_body]
fn hcl_add_attribute(builder: hcl::BlockBuilder, key: &str, expr: hcl::Expression) -> (out:
    hcl::BlockBuilder)
    ensures
        builder_holds(out) == builder_holds(builder).items(
            attribute(
                (if is_plain_identifier(key@) {
                    key@
                } else {
                    sanitized_identifier(key@)
                }),
                expression_holds(expr),
            ),
        ),
{
    builder.add_attribute((key, expr))
}

/// Calls `hcl::BlockBuilder::add_structures`, which puts the items of
/// `items`, in their order, at the end of the body.
#[verifier::external_body]
fn hcl_add_structures(builder: hcl::BlockBuilder, items: hcl::Body) -> (out: hcl::BlockBuilder)
    ensures
        builder_holds(out) == builder_holds(builder).items(body_holds(items)),
{
    builder.add_structures(items)
}

/// Calls `hcl::BlockBuilder::build`, which hands out the block with what the
/// builder held, and `hcl::Body::from`, which makes the body whose only item
/// is that block.
#[verifier::external_body]
fn hcl_build(builder: hcl::BlockBuilder) -> (out: hcl::Body)
    ensures
        body_holds(out) == nested(builder_holds(builder)),
{
    hcl::Body::from(builder.build())
}

/// What the `hcl` crate holds for an expression: the same tree, but that in
/// each object a key that occurs again gives its value to the first entry
/// with that key and has no entry of its own.
pub open spec fn lowered_expression(expr: ExprView) -> ExprView
    decreases expr,
{
    match expr {
        ExprView::Array(items) => ExprView::Array(
            Seq::new(
                items.len(),
                |i: int|
                    if 0 <= i < items.len() {
                        lowered_expression(items[i])
                    } else {
                        arbitrary()
                    },
            ),
        ),
        ExprView::Object(entries) => ExprView::Object(lowered_object(entries)),
        other => other,
    }
}

/// What the `hcl` crate holds for the entries of an object: the entries are
/// inserted one after the other, each with what is held for its value.
pub open spec fn lowered_object(entries: Seq<(Seq<char>, ExprView)>) -> Seq<(Seq<char>, ExprView)>
    decreases entries,
{
    if entries.len() == 0 {
        Seq::empty()
    } else {
        inserted(
            lowered_object(entries.subrange(0, entries.len() - 1)),
            entries[entries.len() - 1].0,
            lowered_expression(entries[entries.len() - 1].1),
        )
    }
}

/// What the `hcl` crate holds for a body item.
pub open spec fn lowered_structure(item: StructureView) -> StructureView
    decreases item,
{
    match item {
        StructureView::Attribute(attr) => StructureView::Attribute(
            AttributeView {
                key: kept_identifier(attr.key),
                expr: lowered_expression(attr.expr),
            },
        ),
        StructureView::Block(block) => StructureView::Block(lowered_block(block)),
    }
}

/// What the `hcl` crate holds for a block: the same labels and the same
/// items in the same order, with the identifiers that the crate keeps for
/// the block type and for the attribute keys.
pub open spec fn lowered_block(block: BlockView) -> BlockView
    decreases block,
{
    BlockView {
        block_type: kept_identifier(block.block_type),
        labels: block.labels,
        body: Seq::new(
            block.body.len(),
            |i: int|
                if 0 <= i < block.body.len() {
                    lowered_structure(block.body[i])
                } else {
                    arbitrary()
                },
        ),
    }
}

/// What the `hcl` crate holds for each expression of a list.
pub open spec fn lowered_expressions(items: Seq<ExprView>) -> Seq<ExprView> {
    Seq::new(items.len(), |i: int| lowered_expression(items[i]))
}

/// Each key with what the `hcl` crate holds for its value, before keys that
/// occur again are merged.
pub open spec fn lowered_entries(entries: Seq<(Seq<char>, ExprView)>) -> Seq<
    (Seq<char>, ExprView),
> {
    Seq::new(entries.len(), |i: int| (entries[i].0, lowered_expression(entries[i].1)))
}

/// An array is lowered item by item.
pub proof fn lemma_lowered_array(items: Seq<ExprView>)
    ensures
        lowered_expression(ExprView::Array(items)) == ExprView::Array(lowered_expressions(items)),
{
    assert(lowered_expression(ExprView::Array(items))->Array_0 =~= lowered_expressions(items));
}

/// The entries of an object are lowered value by value and then inserted
/// one after the other.
pub proof fn lemma_lowered_object(entries: Seq<(Seq<char>, ExprView)>)
    ensures
        lowered_object(entries) == inserted_all(Seq::empty(), lowered_entries(entries)),
    decreases entries.len(),
{
    let pairs = lowered_entries(entries);
    if entries.len() > 0 {
        let front = entries.subrange(0, entries.len() - 1);
        lemma_lowered_object(front);
        assert(pairs.drop_last() =~= lowered_entries(front));
    }
}

/// Whether the `hcl` crate holds the expression as it is: in each object
/// of the tree no key occurs twice.
pub open spec fn is_kept_expression(expr: ExprView) -> bool
    decreases expr,
{
    match expr {
        ExprView::Array(items) => forall|i: int|
            0 <= i < items.len() ==> is_kept_expression(#[trigger] items[i]),
        ExprView::Object(entries) => distinct_keys(entries) && forall|i: int|
            0 <= i < entries.len() ==> is_kept_expression((#[trigger] entries[i]).1),
        _ => true,
    }
}

/// Whether the `hcl` crate holds the body item as it is.
pub open spec fn is_kept_structure(item: StructureView) -> bool
    decreases item,
{
    match item {
        StructureView::Attribute(attr) => is_plain_identifier(attr.key) && is_kept_expression(
            attr.expr,
        ),
        StructureView::Block(block) => is_kept_block(block),
    }
}

/// Whether the `hcl` crate holds the block as it is: the block type and the
/// attribute keys are plain identifiers and no object has a key twice, in
/// the block and in the blocks nested in it.
pub open spec fn is_kept_block(block: BlockView) -> bool
    decreases block,
{
    is_plain_identifier(block.block_type) && forall|i: int|
        0 <= i < block.body.len() ==> is_kept_structure(#[trigger] block.body[i])
}

/// Whether the `hcl` crate holds each body item of the list as it is.
pub open spec fn all_kept(items: Seq<StructureView>) -> bool {
    forall|i: int| 0 <= i < items.len() ==> is_kept_structure(#[trigger] items[i])
}

/// An expression without an object that has a key twice is held as it is.
pub proof fn lemma_kept_expression(expr: ExprView)
    requires
        is_kept_expression(expr),
    ensures
        lowered_expression(expr) == expr,
    decreases expr,
{
    match expr {
        ExprView::Array(items) => {
            lemma_lowered_array(items);
            assert forall|i: int| 0 <= i < items.len() implies lowered_expression(items[i])
                == items[i] by {
                lemma_kept_expression(items[i]);
            }
            assert(lowered_expressions(items) =~= items);
        },
        ExprView::Object(entries) => {
            lemma_lowered_object(entries);
            assert forall|i: int| 0 <= i < entries.len() implies lowered_expression(entries[i].1)
                == entries[i].1 by {
                lemma_kept_expression(entries[i].1);
            }
            assert(lowered_entries(entries) =~= entries);
            lemma_inserted_distinct(entries);
        },
        _ => {},
    }
}

/// A block of plain identifiers without an object that has a key twice is
/// held as it is.
pub proof fn lemma_kept_block(block: BlockView)
    requires
        is_kept_block(block),
    ensures
        lowered_block(block) == block,
    decreases block,
{
    assert forall|i: int| 0 <= i < block.body.len() implies lowered_structure(block.body[i])
        == block.body[i] by {
        match block.body[i] {
            StructureView::Attribute(attr) => {
                lemma_kept_expression(attr.expr);
            },
            StructureView::Block(inner) => {
                lemma_kept_block(inner);
            },
        }
    }
    assert(lowered_block(block).body =~= block.body);
}

/// The object of a tag map without a key twice is held as it is.
pub proof fn lemma_kept_tags(tags: Seq<(Seq<char>, Seq<char>)>)
    requires
        distinct_keys(tags),
    ensures
        is_kept_expression(tags_object(tags)),
{
    let entries = tags_object(tags)->Object_0;
    assert(distinct_keys(entries));
    assert forall|i: int| 0 <= i < entries.len() implies is_kept_expression(
        (#[trigger] entries[i]).1,
    ) by {
        assert(entries[i].1 is String);
    }
}

/// An array of literal strings is held as it is.
pub proof fn lemma_kept_strings(values: Seq<Seq<char>>)
    ensures
        is_kept_expression(string_array(values)),
{
    let items = string_array(values)->Array_0;
    assert forall|i: int| 0 <= i < items.len() implies is_kept_expression(#[trigger] items[i]) by {
        assert(items[i] is String);
    }
}

/// The `filter` block of a lookup is held as it is.
pub proof fn lemma_kept_filter(name: Seq<char>, values: Seq<Seq<char>>)
    ensures
        is_kept_block(filter_view(name, values)),
{
    reveal_strlit("filter");
    reveal_strlit("name");
    reveal_strlit("values");
    lemma_kept_strings(values);
}

/// Two lists of body items that are held as they are, put together, are
/// held as they are.
pub proof fn lemma_kept_concat(first: Seq<StructureView>, second: Seq<StructureView>)
    requires
        all_kept(first),
        all_kept(second),
    ensures
        all_kept(first + second),
{
    assert forall|i: int| 0 <= i < (first + second).len() implies is_kept_structure(
        #[trigger] (first + second)[i],
    ) by {
        if i < first.len() {
            assert((first + second)[i] == first[i]);
        } else {
            assert((first + second)[i] == second[i - first.len()]);
        }
    }
}

impl Expr {
    /// Rebuilds the expression as an expression of the `hcl` crate.
    pub fn to_hcl(&self) -> (out: hcl::Expression)
        ensures
            expression_holds(out) == lowered_expression(self@),
        decreases self,
    {
        match self {
            Expr::String(text) => hcl_string(text.clone()),
            Expr::Bool(value) => hcl_bool(*value),
            Expr::Array(items) => {
                let mut lowered: Vec<hcl::Expression> = Vec::new();
                let mut i: usize = 0;
                while i < items.len()
                    invariant
                        i <= items@.len(),
                        lowered@.len() == i,
                        *self == Expr::Array(*items),
                        forall|k: int|
                            0 <= k < i ==> expression_holds(#[trigger] lowered@[k])
                                == lowered_expression(items@[k]@),
                    decreases items@.len() - i,
                {
                    proof {
                        assert(self->Array_0 == *items);
                        assert(decreases_to!(self => self->Array_0));
                        assert(decreases_to!(self->Array_0 => self->Array_0@));
                        assert(decreases_to!(self->Array_0@ => self->Array_0@[i as int]));
                    }
                    lowered.push(items[i].to_hcl());
                    i += 1;
                }
                proof {
                    lemma_array_view(*items);
                    lemma_lowered_array(exprs_view(items@));
                    assert(expressions_hold(lowered@) =~= lowered_expressions(exprs_view(items@)));
                }
                hcl_array(lowered)
            },
            Expr::Object(entries) => {
                let mut lowered: Vec<(String, hcl::Expression)> = Vec::new();
                let mut i: usize = 0;
                while i < entries.len()
                    invariant
                        i <= entries@.len(),
                        lowered@.len() == i,
                        *self == Expr::Object(*entries),
                        forall|k: int|
                            0 <= k < i ==> (#[trigger] lowered@[k]).0@ == entries@[k].0@
                                && expression_holds(lowered@[k].1) == lowered_expression(
                                entries@[k].1@,
                            ),
                    decreases entries@.len() - i,
                {
                    proof {
                        assert(self->Object_0 == *entries);
                        assert(decreases_to!(self => self->Object_0));
                        assert(decreases_to!(self->Object_0 => self->Object_0@));
                        assert(decreases_to!(self->Object_0@ => self->Object_0@[i as int]));
                        let ghost entry = self->Object_0@[i as int];
                        assert(decreases_to!(entry => entry.1));
                    }
                    lowered.push((entries[i].0.clone(), entries[i].1.to_hcl()));
                    i += 1;
                }
                proof {
                    lemma_object_view(*entries);
                    lemma_lowered_object(entries_view(entries@));
                    assert(lowered_expression(self@) == ExprView::Object(
                        lowered_object(entries_view(entries@)),
                    ));
                    assert(entries_hold(lowered@) =~= lowered_entries(entries_view(entries@)));
                }
                hcl_object(lowered)
            },
            Expr::RawReference(token) => hcl_reference(token.clone()),
        }
    }
}

impl Block {
    /// Rebuilds the block with the `hcl` crate: the body that holds this
    /// block and nothing else, ready to be rendered.
    pub fn to_hcl(&self) -> (out: hcl::Body)
        ensures
            body_holds(out) == nested(lowered_block(self@)),
        decreases self,
    {
        let mut builder = hcl_builder(self.block_type.as_str());
        let mut i: usize = 0;
        while i < self.labels.len()
            invariant
                i <= self.labels@.len(),
                builder_holds(builder).block_type == kept_identifier(self.block_type@),
                builder_holds(builder).labels == self@.labels.take(i as int),
                builder_holds(builder).body == Seq::<StructureView>::empty(),
            decreases self.labels@.len() - i,
        {
            builder = hcl_add_label(builder, self.labels[i].as_str());
            assert(self@.labels.take(i + 1) =~= self@.labels.take(i as int).push(
                self.labels@[i as int]@,
            ));
            i += 1;
        }
        assert(self@.labels.take(self.labels@.len() as int) =~= self@.labels);
        let mut j: usize = 0;
        while j < self.body.len()
            invariant
                j <= self.body@.len(),
                builder_holds(builder).block_type == kept_identifier(self.block_type@),
                builder_holds(builder).labels == self@.labels,
                builder_holds(builder).body == lowered_block(self@).body.take(j as int),
            decreases self.body@.len() - j,
        {
            let ghost before = builder_holds(builder);
            match &self.body[j] {
                Structure::Attribute(attr) => {
                    builder = hcl_add_attribute(builder, attr.key.as_str(), attr.expr.to_hcl());
                },
                Structure::Block(block) => {
                    builder = hcl_add_structures(builder, block.to_hcl());
                },
            }
            assert(builder_holds(builder).body =~= lowered_block(self@).body.take(j + 1)) by {
                assert(lowered_block(self@).body.take(j + 1) =~= lowered_block(self@).body.take(
                    j as int,
                ).push(lowered_structure(self@.body[j as int])));
            }
            j += 1;
        }
        assert(lowered_block(self@).body.take(self.body@.len() as int) =~= lowered_block(
            self@,
        ).body);
        hcl_build(builder)
    }
}

} // verus!
