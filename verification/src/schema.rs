//! The schema of a batch.
use std::sync::Arc;

use arrow::datatypes::{Field, Schema};
use vstd::prelude::*;

use crate::columns::{
    dictionary_field, field_view, field_views, item_view, list_field, number_field, schema_fields,
    schema_of, struct_field, text_field, text_view, text_views, FieldKind, FieldView,
};
use crate::token::name_bytes;

verus! {

/// A field of lists of `item`.
pub open spec fn list_view(name: &str, item: FieldView) -> FieldView {
    FieldView { name: name_bytes(name), nullable: false, kind: FieldKind::List(Box::new(item)) }
}

/// The members of an artist record: the identifier and the name, never
/// null, then the name variation and the join phrase, which may be null.
pub open spec fn artist_members() -> Seq<FieldView> {
    seq![
        text_view("id", false),
        text_view("name", false),
        text_view("anv", true),
        text_view("join", true),
    ]
}

/// The members of a label record: the identifier, the catalogue number and
/// the name, never null.
pub open spec fn label_members() -> Seq<FieldView> {
    seq![text_view("id", false), text_view("cat_no", false), text_view("name", false)]
}

/// The fields of a batch, in their order. No column is null; the items of
/// the lists are declared nullable, as Arrow's list builder declares them.
pub open spec fn release_fields() -> Seq<FieldView> {
    seq![
        FieldView { name: name_bytes("id"), nullable: false, kind: FieldKind::Number },
        FieldView { name: name_bytes("status"), nullable: false, kind: FieldKind::Coded },
        text_view("title", false),
        list_view("artists", item_view(FieldKind::Record(artist_members()))),
        list_view("genres", item_view(FieldKind::Text)),
        list_view("styles", item_view(FieldKind::Text)),
        list_view("labels", item_view(FieldKind::Record(label_members()))),
    ]
}

/// The names of the members of an artist record.
pub(crate) fn artist_names() -> (names: Vec<&'static str>)
    ensures
        names@ == seq!["id", "name", "anv", "join"],
{
    let mut names: Vec<&'static str> = Vec::new();
    names.push("id");
    names.push("name");
    names.push("anv");
    names.push("join");
    assert(names@ =~= seq!["id", "name", "anv", "join"]);
    names
}

/// Whether each member of an artist record may be null.
pub(crate) fn artist_nullable() -> (nullable: Vec<bool>)
    ensures
        nullable@ == seq![false, false, true, true],
{
    let mut nullable: Vec<bool> = Vec::new();
    nullable.push(false);
    nullable.push(false);
    nullable.push(true);
    nullable.push(true);
    assert(nullable@ =~= seq![false, false, true, true]);
    nullable
}

/// The names of the members of a label record.
pub(crate) fn label_names() -> (names: Vec<&'static str>)
    ensures
        names@ == seq!["id", "cat_no", "name"],
{
    let mut names: Vec<&'static str> = Vec::new();
    names.push("id");
    names.push("cat_no");
    names.push("name");
    assert(names@ =~= seq!["id", "cat_no", "name"]);
    names
}

/// Whether each member of a label record may be null.
pub(crate) fn label_nullable() -> (nullable: Vec<bool>)
    ensures
        nullable@ == seq![false, false, false],
{
    let mut nullable: Vec<bool> = Vec::new();
    nullable.push(false);
    nullable.push(false);
    nullable.push(false);
    assert(nullable@ =~= seq![false, false, false]);
    nullable
}

/// The fields of a record of strings, one per name.
fn member_fields(names: &Vec<&'static str>, nullable: &Vec<bool>) -> (fields: Vec<Field>)
    requires
        names@.len() == nullable@.len(),
    ensures
        field_views(fields@) == text_views(names@, nullable@),
{
    let mut fields: Vec<Field> = Vec::new();
    let mut at: usize = 0;
    while at < names.len()
        invariant
            at <= names@.len(),
            names@.len() == nullable@.len(),
            fields@.len() == at,
            forall|i: int| 0 <= i < at ==> field_view(#[trigger] fields@[i]) == text_view(names@[i], nullable@[i]),
        decreases names@.len() - at,
    {
        fields.push(text_field(names[at], nullable[at]));
        at += 1;
    }
    assert(field_views(fields@) =~= text_views(names@, nullable@));
    fields
}

/// The schema of a batch: id, status, title, artists, genres, styles and
/// labels, in this order.
pub fn release_schema() -> (schema: Arc<Schema>)
    ensures
        schema_fields(*schema) == release_fields(),
{
    let mut fields: Vec<Field> = Vec::new();
    fields.push(number_field("id", false));
    fields.push(dictionary_field("status", false));
    fields.push(text_field("title", false));
    let artists = member_fields(&artist_names(), &artist_nullable());
    assert(text_views(seq!["id", "name", "anv", "join"], seq![false, false, true, true])
        =~= artist_members());
    fields.push(list_field("artists", struct_field("item", artists, true), false));
    fields.push(list_field("genres", text_field("item", true), false));
    fields.push(list_field("styles", text_field("item", true), false));
    let labels = member_fields(&label_names(), &label_nullable());
    assert(text_views(seq!["id", "cat_no", "name"], seq![false, false, false])
        =~= label_members());
    fields.push(list_field("labels", struct_field("item", labels, true), false));
    assert(field_views(fields@) =~= release_fields());
    schema_of(fields)
}

} // verus!
