//! What the resource compilers share: how an optional field, a tag map, a
//! list of strings and a reference to another resource become body items of
//! a block.

use crate::aws::tags::Tags;
use crate::ir::{
    all_attributes, attribute, no_attribute_named, strings_view, Block, BlockView, Builder, Expr,
    ExprView, StructureView,
};
use vstd::prelude::*;

verus! {

/// The body items of an optional string field: one attribute when the field
/// is present, nothing when it is absent.
pub open spec fn optional_string(key: Seq<char>, value: Option<String>) -> Seq<StructureView> {
    match value {
        Some(s) => attribute(key, ExprView::String(s@)),
        None => Seq::empty(),
    }
}

/// The body items of an optional boolean field: one attribute when the field
/// is present, nothing when it is absent.
pub open spec fn optional_bool(key: Seq<char>, value: Option<bool>) -> Seq<StructureView> {
    match value {
        Some(b) => attribute(key, ExprView::Bool(b)),
        None => Seq::empty(),
    }
}

/// The object of a tag map: one entry for each tag, in the order of the map,
/// with the tag's key and its value as a literal string.
pub open spec fn tags_object(entries: Seq<(Seq<char>, Seq<char>)>) -> ExprView {
    ExprView::Object(
        entries.map_values(|tag: (Seq<char>, Seq<char>)| (tag.0, ExprView::String(tag.1))),
    )
}

/// The body items of an optional tag map: a `tags` attribute when the map is
/// present, even if it is empty, and nothing when it is absent.
pub open spec fn optional_tags(tags: Option<Tags>) -> Seq<StructureView> {
    match tags {
        Some(t) => attribute("tags"@, tags_object(t@)),
        None => Seq::empty(),
    }
}

/// The array of literal strings.
pub open spec fn string_array(values: Seq<Seq<char>>) -> ExprView {
    ExprView::Array(values.map_values(|s: Seq<char>| ExprView::String(s)))
}

/// The body items of an optional list of strings: one attribute holding the
/// array of literal strings when the list is present, nothing when it is
/// absent.
pub open spec fn optional_strings(key: Seq<char>, values: Option<Vec<String>>) -> Seq<
    StructureView,
> {
    match values {
        Some(list) => attribute(key, string_array(strings_view(list@))),
        None => Seq::empty(),
    }
}

/// The interpolation token that stands for the attribute `attr` of the
/// resource of type `resource_type` named `name`.
pub open spec fn reference(resource_type: Seq<char>, name: Seq<char>, attr: Seq<char>) -> Seq<
    char,
> {
    "${"@ + resource_type + "."@ + name + "."@ + attr + "}"@
}

/// The `filter` block of a lookup: the name of the filter and the values it
/// admits, as an array of literal strings.
pub open spec fn filter_view(name: Seq<char>, values: Seq<Seq<char>>) -> BlockView {
    BlockView::new("filter"@).items(
        attribute("name"@, ExprView::String(name)) + attribute(
            "values"@,
            string_array(values),
        ),
    )
}

/// Whether every item is an attribute with the key `key`.
pub open spec fn only_attributes_named(items: Seq<StructureView>, key: Seq<char>) -> bool {
    forall|i: int|
        0 <= i < items.len() ==> (#[trigger] items[i]) is Attribute && items[i]->Attribute_0.key
            == key
}

/// Attributes of one key, put behind a list of items, leave it a list of
/// attributes if it was one, and leave it without an attribute of another
/// key if it had none.
pub proof fn lemma_append_attributes(
    items: Seq<StructureView>,
    more: Seq<StructureView>,
    key: Seq<char>,
    other: Seq<char>,
)
    requires
        only_attributes_named(more, key),
    ensures
        all_attributes(items) ==> all_attributes(items + more),
        key != other && no_attribute_named(items, other) ==> no_attribute_named(
            items + more,
            other,
        ),
{
    assert(all_attributes(more));
    if all_attributes(items) {
        lemma_attributes_in_concat(items, more);
    }
    if key != other && no_attribute_named(items, other) {
        assert(no_attribute_named(more, other));
        lemma_no_attribute_in_concat(items, more, other);
    }
}

/// Two lists of items without an attribute of some key, put together, hold
/// no attribute of that key.
pub proof fn lemma_no_attribute_in_concat(
    first: Seq<StructureView>,
    second: Seq<StructureView>,
    key: Seq<char>,
)
    requires
        no_attribute_named(first, key),
        no_attribute_named(second, key),
    ensures
        no_attribute_named(first + second, key),
{
    assert forall|i: int| 0 <= i < (first + second).len() implies !((#[trigger] (first + second)[i])
        is Attribute && (first + second)[i]->Attribute_0.key == key) by {
        if i < first.len() {
            assert((first + second)[i] == first[i]);
        } else {
            assert((first + second)[i] == second[i - first.len()]);
        }
    }
}

/// Two lists of attributes, put together, are a list of attributes.
pub proof fn lemma_attributes_in_concat(first: Seq<StructureView>, second: Seq<StructureView>)
    requires
        all_attributes(first),
        all_attributes(second),
    ensures
        all_attributes(first + second),
{
    assert forall|i: int| 0 <= i < (first + second).len() implies (#[trigger] (first + second)[i])
        is Attribute by {
        if i < first.len() {
            assert((first + second)[i] == first[i]);
        } else {
            assert((first + second)[i] == second[i - first.len()]);
        }
    }
}

/// An absent tag map puts nothing into the body. A present one puts in one
/// attribute `tags` with the object of its tags, and where the map is empty
/// that object is empty.
pub proof fn lemma_tags_absent_or_present(tags: Option<Tags>)
    ensures
        tags is None ==> optional_tags(tags) == Seq::<StructureView>::empty(),
        tags is Some ==> optional_tags(tags) == attribute("tags"@, tags_object(tags->Some_0@)),
        tags is Some && tags->Some_0@.len() == 0 ==> optional_tags(tags) == attribute(
            "tags"@,
            ExprView::Object(Seq::empty()),
        ),
{
    if tags is Some && tags->Some_0@.len() == 0 {
        assert(tags_object(tags->Some_0@)->Object_0 =~= Seq::empty());
    }
}

/// Adds the attribute of an optional string field.
pub fn add_optional_string(builder: Builder, key: &str, value: &Option<String>) -> (out:
    Builder)
    ensures
        out@ == builder@.items(optional_string(key@, *value)),
{
    match value {
        Some(s) => builder.add_attribute(key, Expr::String(s.clone())),
        None => {
            assert(builder@.body + Seq::<StructureView>::empty() =~= builder@.body);
            builder
        },
    }
}

/// Adds the attribute of an optional boolean field.
pub fn add_optional_bool(builder: Builder, key: &str, value: &Option<bool>) -> (out:
    Builder)
    ensures
        out@ == builder@.items(optional_bool(key@, *value)),
{
    match value {
        Some(b) => builder.add_attribute(key, Expr::Bool(*b)),
        None => {
            assert(builder@.body + Seq::<StructureView>::empty() =~= builder@.body);
            builder
        },
    }
}

/// The object expression of a tag map.
pub fn tags_expression(tags: &Tags) -> (expr: Expr)
    ensures
        expr@ == tags_object(tags@),
{
    let mut entries: Vec<(String, Expr)> = Vec::new();
    let n = tags.len();
    let mut i: usize = 0;
    while i < n
        invariant
            n == tags@.len(),
            i <= n,
            entries@.len() == i,
            forall|k: int|
                0 <= k < i ==> (#[trigger] entries@[k]).0@ == tags@[k].0 && entries@[k].1@
                    == ExprView::String(tags@[k].1),
        decreases n - i,
    {
        let (key, value) = tags.entry(i);
        entries.push((key.clone(), Expr::String(value.clone())));
        i += 1;
    }
    let expr = Expr::Object(entries);
    assert(expr@->Object_0 =~= tags_object(tags@)->Object_0);
    expr
}

/// Adds the `tags` attribute of an optional tag map.
pub fn add_optional_tags(builder: Builder, tags: &Option<Tags>) -> (out: Builder)
    ensures
        out@ == builder@.items(optional_tags(*tags)),
{
    match tags {
        Some(t) => builder.add_attribute("tags", tags_expression(t)),
        None => {
            assert(builder@.body + Seq::<StructureView>::empty() =~= builder@.body);
            builder
        },
    }
}

/// The array expression of a list of strings.
pub fn strings_expression(values: &Vec<String>) -> (expr: Expr)
    ensures
        expr@ == string_array(strings_view(values@)),
{
    let mut items: Vec<Expr> = Vec::new();
    let mut i: usize = 0;
    while i < values.len()
        invariant
            i <= values@.len(),
            items@.len() == i,
            forall|k: int| 0 <= k < i ==> (#[trigger] items@[k])@ == ExprView::String(values@[k]@),
        decreases values@.len() - i,
    {
        items.push(Expr::String(values[i].clone()));
        i += 1;
    }
    let expr = Expr::Array(items);
    assert(expr@->Array_0 =~= string_array(strings_view(values@))->Array_0);
    expr
}

/// Adds the attribute of an optional list of strings.
pub fn add_optional_strings(builder: Builder, key: &str, values: &Option<Vec<String>>) -> (out:
    Builder)
    ensures
        out@ == builder@.items(optional_strings(key@, *values)),
{
    match values {
        Some(list) => builder.add_attribute(key, strings_expression(list)),
        None => {
            assert(builder@.body + Seq::<StructureView>::empty() =~= builder@.body);
            builder
        },
    }
}

/// The `filter` block of a lookup.
pub fn filter_block(name: &String, values: &Vec<String>) -> (block: Block)
    ensures
        block@ == filter_view(name@, strings_view(values@)),
{
    let block = Block::builder("filter").add_attribute(
        "name",
        Expr::String(name.clone()),
    ).add_attribute("values", strings_expression(values)).build();
    assert(block@.body =~= filter_view(name@, strings_view(values@)).body);
    block
}

/// The token that refers to an attribute of another resource.
pub fn reference_token(resource_type: &str, name: &str, attr: &str) -> (token: String)
    ensures
        token@ == reference(resource_type@, name@, attr@),
{
    let mut token = String::from_str("${");
    token.append(resource_type);
    token.append(".");
    token.append(name);
    token.append(".");
    token.append(attr);
    token.append("}");
    token
}

} // verus!
