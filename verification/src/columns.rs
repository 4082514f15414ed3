//! The Arrow builders that gather a batch, and what is taken on trust of
//! them.
//!
//! Verus cannot look inside an Arrow builder. Each builder is therefore kept
//! in a struct of its own, its contents are given a name, and every Arrow
//! method that the library calls is wrapped in a function whose contract
//! states, over those names, what the method does. None of these contracts is
//! proved: they restate Arrow's documentation and source.
use std::sync::Arc;

use arrow::array::{
    ArrayBuilder, ArrayRef, ListBuilder, StringArray, StringBuilder, StringDictionaryBuilder,
    StructBuilder, UInt32Builder,
};
use arrow::datatypes::{DataType, Field, Int8Type, Schema};
use arrow::error::ArrowError;
use arrow::record_batch::RecordBatch;
use vstd::prelude::*;
use vstd::string::*;

verus! {

/// `arrow::error::ArrowError`, carried through and never looked into.
#[verifier::external_type_specification]
#[verifier::external_body]
pub struct ExArrowError(ArrowError);

/// `arrow::datatypes::Schema`, carried through and never looked into.
#[verifier::external_type_specification]
#[verifier::external_body]
pub struct ExSchema(Schema);

/// `arrow::datatypes::Field`, carried through and never looked into.
#[verifier::external_type_specification]
#[verifier::external_body]
pub struct ExField(Field);

/// Holds a `UInt32Builder`: a growing column of numbers.
#[verifier::external_body]
pub struct IdColumn {
    inner: UInt32Builder,
}

/// Holds a `StringDictionaryBuilder<Int8Type>`: a growing column of strings
/// stored as small codes into a dictionary of the distinct strings.
#[verifier::external_body]
pub struct StatusColumn {
    inner: StringDictionaryBuilder<Int8Type>,
}

/// Holds a `StringBuilder`: a growing column of strings.
#[verifier::external_body]
pub struct TextColumn {
    inner: StringBuilder,
}

/// Holds a `ListBuilder<StringBuilder>`: a growing column of lists of
/// strings.
#[verifier::external_body]
pub struct TextListColumn {
    inner: ListBuilder<StringBuilder>,
}

/// Holds a `ListBuilder<StructBuilder>` whose struct members are all built by
/// a `StringBuilder`: a growing column of lists of records of strings.
#[verifier::external_body]
pub struct StructListColumn {
    inner: ListBuilder<StructBuilder>,
}

/// Holds an `ArrayRef`: a finished, immutable column.
#[verifier::external_body]
pub struct FinishedColumn {
    inner: ArrayRef,
}

/// Holds a `RecordBatch`: finished columns of one length under a schema.
#[verifier::external_body]
#[derive(Debug)]
pub struct Batch {
    pub inner: RecordBatch,
}

/// What a field of a schema declares: its name, whether it may be null, and
/// what it holds.
pub struct FieldView {
    pub name: Seq<u8>,
    pub nullable: bool,
    pub kind: FieldKind,
}

/// What a field holds.
pub enum FieldKind {
    /// Unsigned numbers of 32 bits.
    Number,
    /// Strings, stored as 8-bit codes into a dictionary.
    Coded,
    /// Strings.
    Text,
    /// Lists whose items are declared by the given field.
    List(Box<FieldView>),
    /// Records whose members are declared by the given fields.
    Record(Seq<FieldView>),
}

/// What one row holds in a finished column.
pub enum Cell {
    /// A number.
    Number(u32),
    /// A string, by its bytes.
    Text(Seq<u8>),
    /// A list of strings.
    Texts(Seq<Seq<u8>>),
    /// A list of records; each record holds one entry per member, `None`
    /// where the member is null.
    Records(Seq<Seq<Option<Seq<u8>>>>),
}

/// What the field declares.
pub uninterp spec fn field_view(field: Field) -> FieldView;

/// What the fields of the schema declare, in their order.
pub uninterp spec fn schema_fields(schema: Schema) -> Seq<FieldView>;

/// The numbers appended to the builder since it was last finished.
pub uninterp spec fn id_values(column: IdColumn) -> Seq<u32>;

/// The strings appended to the builder since it was last finished.
pub uninterp spec fn status_values(column: StatusColumn) -> Seq<Seq<u8>>;

/// The distinct strings that the builder's dictionary holds.
pub uninterp spec fn status_dictionary(column: StatusColumn) -> Set<Seq<u8>>;

/// The strings appended to the builder since it was last finished.
pub uninterp spec fn text_values(column: TextColumn) -> Seq<Seq<u8>>;

/// The strings appended to the builder's values since it was last finished,
/// whichever list they belong to.
pub uninterp spec fn list_items(column: TextListColumn) -> Seq<Seq<u8>>;

/// For each list closed since the builder was last finished, the number of
/// items that the values held when it was closed.
pub uninterp spec fn list_ends(column: TextListColumn) -> Seq<int>;

/// For each member of the struct, the entries appended to that member's
/// builder since the column was last finished.
pub uninterp spec fn struct_members(column: StructListColumn) -> Seq<Seq<Option<Seq<u8>>>>;

/// What the field of each member of the struct declares.
pub uninterp spec fn struct_fields(column: StructListColumn) -> Seq<FieldView>;

/// The number of records closed since the column was last finished.
pub uninterp spec fn struct_records(column: StructListColumn) -> nat;

/// For each list closed since the column was last finished, the number of
/// closed records when it was closed.
pub uninterp spec fn struct_ends(column: StructListColumn) -> Seq<int>;

/// The rows of a finished column.
pub uninterp spec fn finished_cells(column: FinishedColumn) -> Seq<Cell>;

/// The data type of a finished column, as a field of that type declares it.
pub uninterp spec fn finished_kind(column: FinishedColumn) -> FieldKind;

/// The number of rows of a finished column that are null.
pub uninterp spec fn finished_nulls(column: FinishedColumn) -> nat;

/// The columns of a batch, in the order of its schema, each by its rows.
pub uninterp spec fn batch_columns(batch: Batch) -> Seq<Seq<Cell>>;

/// What the fields of the schema of a batch declare, in their order.
pub uninterp spec fn batch_fields(batch: Batch) -> Seq<FieldView>;

/// The largest offset that an Arrow array with 32-bit offsets can hold.
pub const OFFSET_LIMIT: usize = 0x7fff_ffff;

/// The most distinct strings that a dictionary with 8-bit codes can hold.
pub const DICTIONARY_LIMIT: usize = 128;

/// The longest string that [`append_status`] takes.
pub const STATUS_LENGTH_LIMIT: usize = 0xffff;

/// The most items that a builder is asked to reserve room for at once.
pub const RESERVE_LIMIT: usize = 0x0fff_ffff;

/// The number of bytes in `values`, all strings together.
pub open spec fn text_bytes(values: Seq<Seq<u8>>) -> nat
    decreases values.len(),
{
    if values.len() == 0 {
        0
    } else {
        text_bytes(values.drop_last()) + values.last().len()
    }
}

/// The number of bytes in `entries`, all strings together; a null has none.
pub open spec fn entry_bytes(entries: Seq<Option<Seq<u8>>>) -> nat
    decreases entries.len(),
{
    if entries.len() == 0 {
        0
    } else {
        entry_bytes(entries.drop_last()) + match entries.last() {
            Some(text) => text.len(),
            None => 0,
        }
    }
}

/// The rows of a column of numbers.
pub open spec fn number_cells(values: Seq<u32>) -> Seq<Cell> {
    Seq::new(values.len(), |row: int| Cell::Number(values[row]))
}

/// The rows of a column of strings.
pub open spec fn text_cells(values: Seq<Seq<u8>>) -> Seq<Cell> {
    Seq::new(values.len(), |row: int| Cell::Text(values[row]))
}

/// Where the list of row `row` begins: where the list before it ended.
pub open spec fn list_start(ends: Seq<int>, row: int) -> int {
    if row == 0 {
        0
    } else {
        ends[row - 1]
    }
}

/// The rows of a column of lists of strings: row `row` holds the items from
/// the end of the list before it up to its own end.
pub open spec fn texts_cells(items: Seq<Seq<u8>>, ends: Seq<int>) -> Seq<Cell> {
    Seq::new(ends.len(), |row: int| Cell::Texts(items.subrange(list_start(ends, row), ends[row])))
}

/// The record at position `at`: the entry at `at` of every member.
pub open spec fn record_at(members: Seq<Seq<Option<Seq<u8>>>>, at: int) -> Seq<Option<Seq<u8>>> {
    Seq::new(members.len(), |member: int| members[member][at])
}

/// The rows of a column of lists of records: row `row` holds the records
/// from the end of the list before it up to its own end.
pub open spec fn records_cells(members: Seq<Seq<Option<Seq<u8>>>>, ends: Seq<int>) -> Seq<Cell> {
    Seq::new(
        ends.len(),
        |row: int|
            Cell::Records(
                Seq::new(
                    (ends[row] - list_start(ends, row)) as nat,
                    |item: int| record_at(members, list_start(ends, row) + item),
                ),
            ),
    )
}

/// The bytes of each string of `texts`.
pub open spec fn bytes_of(texts: Seq<&str>) -> Seq<Seq<u8>> {
    Seq::new(texts.len(), |i: int| texts[i].spec_bytes())
}

/// `members` with no entry in any of them.
pub open spec fn emptied(members: Seq<Seq<Option<Seq<u8>>>>) -> Seq<Seq<Option<Seq<u8>>>> {
    Seq::new(members.len(), |member: int| Seq::<Option<Seq<u8>>>::empty())
}

/// A field of strings.
pub open spec fn text_view(name: &str, nullable: bool) -> FieldView {
    FieldView { name: name.spec_bytes(), nullable, kind: FieldKind::Text }
}

/// The fields of strings with the given names.
pub open spec fn text_views(names: Seq<&str>, nullable: Seq<bool>) -> Seq<FieldView> {
    Seq::new(names.len(), |i: int| text_view(names[i], nullable[i]))
}

/// The field that Arrow's list builder declares for the items of a list: it
/// is named `item` and may be null.
pub open spec fn item_view(kind: FieldKind) -> FieldView {
    FieldView { name: "item".spec_bytes(), nullable: true, kind }
}

/// What each field of `fields` declares.
pub open spec fn field_views(fields: Seq<Field>) -> Seq<FieldView> {
    Seq::new(fields.len(), |i: int| field_view(fields[i]))
}

/// Whether Arrow takes `columns` as a batch under a schema with `fields`:
/// there is a column, there are as many columns as fields, every column has
/// the type of its field and as many rows as the first, and no column holds
/// a null unless its field may be null.
pub open spec fn batch_accepted(fields: Seq<FieldView>, columns: Seq<FinishedColumn>) -> bool {
    &&& columns.len() > 0
    &&& columns.len() == fields.len()
    &&& forall|i: int|
        0 <= i < columns.len() ==> {
            &&& finished_kind(#[trigger] columns[i]) == fields[i].kind
            &&& finished_cells(columns[i]).len() == finished_cells(columns[0]).len()
            &&& (fields[i].nullable || finished_nulls(columns[i]) == 0)
        }
}

/// `PrimitiveBuilder::with_capacity`: a builder that holds nothing. The
/// room reserved, four bytes a number, must not outgrow what a vector can
/// hold.
#[verifier::external_body]
pub(crate) fn new_id_column(capacity: usize) -> (column: IdColumn)
    requires
        capacity <= RESERVE_LIMIT,
    ensures
        id_values(column) == Seq::<u32>::empty(),
{
    IdColumn { inner: UInt32Builder::with_capacity(capacity) }
}

/// `PrimitiveBuilder::append_value`: the number is added at the end.
#[verifier::external_body]
pub(crate) fn append_id(column: &mut IdColumn, value: u32)
    ensures
        id_values(*final(column)) == id_values(*old(column)).push(value),
{
    column.inner.append_value(value);
}

/// `PrimitiveBuilder::finish`: hands out what the builder held, one row per
/// number and none of them null, and leaves the builder empty.
#[verifier::external_body]
pub(crate) fn finish_ids(column: &mut IdColumn) -> (finished: FinishedColumn)
    ensures
        id_values(*final(column)) == Seq::<u32>::empty(),
        finished_cells(finished) == number_cells(id_values(*old(column))),
        finished_kind(finished) == FieldKind::Number,
        finished_nulls(finished) == 0,
{
    FinishedColumn { inner: Arc::new(column.inner.finish()) }
}

/// `GenericByteDictionaryBuilder::new_with_dictionary` on a `StringArray` of
/// the given strings: a builder that holds no row and whose dictionary holds
/// these strings. Arrow refuses a dictionary that 8-bit codes cannot number
/// and no other. Building the `StringArray` panics when the strings together
/// outgrow 32-bit offsets: at most 128 strings of at most 65535 bytes each
/// stay far below that. Distinct strings keep the dictionary's size equal to
/// the number of strings it stores.
#[verifier::external_body]
pub(crate) fn new_status_column(capacity: usize, vocabulary: Vec<&str>) -> (made: Result<
    StatusColumn,
    ArrowError,
>)
    requires
        capacity <= RESERVE_LIMIT,
        vocabulary@.len() <= DICTIONARY_LIMIT,
        bytes_of(vocabulary@).no_duplicates(),
        forall|i: int|
            0 <= i < vocabulary@.len() ==> (#[trigger] bytes_of(vocabulary@)[i]).len()
                <= STATUS_LENGTH_LIMIT,
    ensures
        vocabulary@.len() < DICTIONARY_LIMIT ==> made is Ok,
        made matches Ok(column) ==> status_values(column) == Seq::<Seq<u8>>::empty()
            && status_dictionary(column) == bytes_of(vocabulary@).to_set(),
{
    let values = StringArray::from(vocabulary);
    StringDictionaryBuilder::new_with_dictionary(capacity, &values).map(
        |inner| StatusColumn { inner },
    )
}

/// `GenericByteDictionaryBuilder::append_value`: the string is added at the
/// end, and to the dictionary unless it is there. Arrow panics when a new
/// string would be the 129th of the dictionary, or when the dictionary's
/// strings together outgrow 32-bit offsets; fewer than 128 strings of at most
/// 65535 bytes each stay far below that.
#[verifier::external_body]
pub(crate) fn append_status(column: &mut StatusColumn, value: &str)
    requires
        status_dictionary(*old(column)).finite(),
        status_dictionary(*old(column)).contains(value.spec_bytes()) || status_dictionary(
            *old(column),
        ).len() < DICTIONARY_LIMIT,
        value.spec_bytes().len() <= STATUS_LENGTH_LIMIT,
        forall|held: Seq<u8>| #[trigger]
            status_dictionary(*old(column)).contains(held) ==> held.len() <= STATUS_LENGTH_LIMIT,
    ensures
        status_values(*final(column)) == status_values(*old(column)).push(value.spec_bytes()),
        status_dictionary(*final(column)) == status_dictionary(*old(column)).insert(
            value.spec_bytes(),
        ),
{
    column.inner.append_value(value);
}

/// `GenericByteDictionaryBuilder::finish`: hands out what the builder held,
/// one row per string and none of them null, and leaves the builder and its
/// dictionary empty.
#[verifier::external_body]
pub(crate) fn finish_statuses(column: &mut StatusColumn) -> (finished: FinishedColumn)
    ensures
        status_values(*final(column)) == Seq::<Seq<u8>>::empty(),
        status_dictionary(*final(column)) == Set::<Seq<u8>>::empty(),
        finished_cells(finished) == text_cells(status_values(*old(column))),
        finished_kind(finished) == FieldKind::Coded,
        finished_nulls(finished) == 0,
{
    FinishedColumn { inner: Arc::new(column.inner.finish()) }
}

/// `GenericByteBuilder::with_capacity`: a builder that holds nothing. Arrow
/// reserves room for one offset more than there are items, four bytes an
/// offset, and for the bytes; neither must outgrow what a vector can hold.
#[verifier::external_body]
pub(crate) fn new_text_column(items: usize, bytes: usize) -> (column: TextColumn)
    requires
        items < RESERVE_LIMIT,
        bytes <= RESERVE_LIMIT,
    ensures
        text_values(column) == Seq::<Seq<u8>>::empty(),
{
    TextColumn { inner: StringBuilder::with_capacity(items, bytes) }
}

/// `GenericByteBuilder::values_slice`, by its length: the bytes of all the
/// strings that the builder holds.
#[verifier::external_body]
pub(crate) fn text_bytes_used(column: &TextColumn) -> (used: usize)
    ensures
        used == text_bytes(text_values(*column)),
{
    column.inner.values_slice().len()
}

/// `GenericByteBuilder::append_value`: the string is added at the end. Arrow
/// panics when the builder's bytes outgrow 32-bit offsets.
#[verifier::external_body]
pub(crate) fn append_text(column: &mut TextColumn, value: &str)
    requires
        text_bytes(text_values(*old(column))) + value.spec_bytes().len() <= OFFSET_LIMIT,
    ensures
        text_values(*final(column)) == text_values(*old(column)).push(value.spec_bytes()),
{
    column.inner.append_value(value);
}

/// `GenericByteBuilder::finish`: hands out what the builder held, one row per
/// string and none of them null, and leaves the builder empty.
#[verifier::external_body]
pub(crate) fn finish_texts(column: &mut TextColumn) -> (finished: FinishedColumn)
    ensures
        text_values(*final(column)) == Seq::<Seq<u8>>::empty(),
        finished_cells(finished) == text_cells(text_values(*old(column))),
        finished_kind(finished) == FieldKind::Text,
        finished_nulls(finished) == 0,
{
    FinishedColumn { inner: Arc::new(column.inner.finish()) }
}

/// `GenericListBuilder::new` over a new `StringBuilder`: a builder that holds
/// no item and no list.
#[verifier::external_body]
pub(crate) fn new_text_list() -> (column: TextListColumn)
    ensures
        list_items(column) == Seq::<Seq<u8>>::empty(),
        list_ends(column) == Seq::<int>::empty(),
{
    TextListColumn { inner: ListBuilder::new(StringBuilder::new()) }
}

/// `GenericByteBuilder::values_slice` of the list's values, by its length:
/// the bytes of all the items that the builder holds.
#[verifier::external_body]
pub(crate) fn list_bytes_used(column: &TextListColumn) -> (used: usize)
    ensures
        used == text_bytes(list_items(*column)),
{
    column.inner.values_ref().values_slice().len()
}

/// `ArrayBuilder::len` of the list's values: the number of items that the
/// builder holds.
#[verifier::external_body]
pub(crate) fn list_items_used(column: &TextListColumn) -> (used: usize)
    ensures
        used == list_items(*column).len(),
{
    column.inner.values_ref().len()
}

/// `GenericByteBuilder::append_value` on the list's values: the string is
/// added to the items; no list is closed. Arrow panics when the items' bytes
/// outgrow 32-bit offsets.
#[verifier::external_body]
pub(crate) fn append_list_item(column: &mut TextListColumn, value: &str)
    requires
        text_bytes(list_items(*old(column))) + value.spec_bytes().len() <= OFFSET_LIMIT,
    ensures
        list_items(*final(column)) == list_items(*old(column)).push(value.spec_bytes()),
        list_ends(*final(column)) == list_ends(*old(column)),
{
    column.inner.values().append_value(value);
}

/// `GenericListBuilder::append(true)`: closes a list that ends with the last
/// item appended so far. Arrow panics when the number of items does not fit a
/// 32-bit offset.
#[verifier::external_body]
pub(crate) fn close_list(column: &mut TextListColumn)
    requires
        list_items(*old(column)).len() <= OFFSET_LIMIT,
    ensures
        list_items(*final(column)) == list_items(*old(column)),
        list_ends(*final(column)) == list_ends(*old(column)).push(
            list_items(*old(column)).len() as int,
        ),
{
    column.inner.append(true);
}

/// `GenericListBuilder::finish`: hands out the closed lists, one row each and
/// none of them null, and leaves the builder empty.
#[verifier::external_body]
pub(crate) fn finish_text_list(column: &mut TextListColumn) -> (finished: FinishedColumn)
    ensures
        list_items(*final(column)) == Seq::<Seq<u8>>::empty(),
        list_ends(*final(column)) == Seq::<int>::empty(),
        finished_cells(finished) == texts_cells(list_items(*old(column)), list_ends(*old(column))),
        finished_kind(finished) == FieldKind::List(Box::new(item_view(FieldKind::Text))),
        finished_nulls(finished) == 0,
{
    FinishedColumn { inner: Arc::new(column.inner.finish()) }
}

/// `GenericListBuilder::new` over `StructBuilder::new`, with one string field
/// (`Field::new` with `DataType::Utf8`) and one new `StringBuilder` per
/// member: a builder that holds no entry, no record and no list.
#[verifier::external_body]
pub(crate) fn new_struct_list(names: Vec<&str>, nullable: Vec<bool>) -> (column: StructListColumn)
    requires
        names@.len() == nullable@.len(),
    ensures
        struct_members(column) == Seq::new(
            nullable@.len(),
            |member: int| Seq::<Option<Seq<u8>>>::empty(),
        ),
        struct_fields(column) == text_views(names@, nullable@),
        struct_records(column) == 0,
        struct_ends(column) == Seq::<int>::empty(),
{
    let fields: Vec<Field> = names.iter().zip(nullable.iter()).map(
        |(name, nullable)| Field::new(*name, DataType::Utf8, *nullable),
    ).collect();
    let builders: Vec<Box<dyn ArrayBuilder>> = fields.iter().map(
        |_| Box::new(StringBuilder::new()) as Box<dyn ArrayBuilder>,
    ).collect();
    StructListColumn { inner: ListBuilder::new(StructBuilder::new(fields, builders)) }
}

/// `GenericByteBuilder::values_slice` of one member's builder, by its length:
/// the bytes of all the strings that the member holds.
#[verifier::external_body]
pub(crate) fn struct_bytes_used(column: &StructListColumn, member: usize) -> (used: usize)
    requires
        member < struct_members(*column).len(),
    ensures
        used == entry_bytes(struct_members(*column)[member as int]),
{
    let builder = column.inner.values_ref().field_builders()[member].as_any();
    builder.downcast_ref::<StringBuilder>().unwrap().values_slice().len()
}

/// `ArrayBuilder::len` of the list's values: the number of closed records.
#[verifier::external_body]
pub(crate) fn struct_records_used(column: &StructListColumn) -> (used: usize)
    ensures
        used == struct_records(*column),
{
    column.inner.values_ref().len()
}

/// `GenericByteBuilder::append_value` on one member's builder: the string is
/// added to that member; nothing else changes. Arrow panics when the
/// member's bytes outgrow 32-bit offsets.
#[verifier::external_body]
pub(crate) fn append_member(column: &mut StructListColumn, member: usize, value: &str)
    requires
        member < struct_members(*old(column)).len(),
        entry_bytes(struct_members(*old(column))[member as int]) + value.spec_bytes().len()
            <= OFFSET_LIMIT,
    ensures
        struct_members(*final(column)) == struct_members(*old(column)).update(
            member as int,
            struct_members(*old(column))[member as int].push(Some(value.spec_bytes())),
        ),
        struct_fields(*final(column)) == struct_fields(*old(column)),
        struct_records(*final(column)) == struct_records(*old(column)),
        struct_ends(*final(column)) == struct_ends(*old(column)),
{
    column.inner.values().field_builder::<StringBuilder>(member).unwrap().append_value(value);
}

/// `GenericByteBuilder::append_null` on one member's builder: a null is added
/// to that member; nothing else changes.
#[verifier::external_body]
pub(crate) fn append_member_null(column: &mut StructListColumn, member: usize)
    requires
        member < struct_members(*old(column)).len(),
    ensures
        struct_members(*final(column)) == struct_members(*old(column)).update(
            member as int,
            struct_members(*old(column))[member as int].push(None),
        ),
        struct_fields(*final(column)) == struct_fields(*old(column)),
        struct_records(*final(column)) == struct_records(*old(column)),
        struct_ends(*final(column)) == struct_ends(*old(column)),
{
    column.inner.values().field_builder::<StringBuilder>(member).unwrap().append_null();
}

/// `StructBuilder::append(true)`: closes one record; the members are not
/// touched.
#[verifier::external_body]
pub(crate) fn close_record(column: &mut StructListColumn)
    ensures
        struct_members(*final(column)) == struct_members(*old(column)),
        struct_fields(*final(column)) == struct_fields(*old(column)),
        struct_records(*final(column)) == struct_records(*old(column)) + 1,
        struct_ends(*final(column)) == struct_ends(*old(column)),
{
    column.inner.values().append(true);
}

/// `GenericListBuilder::append(true)`: closes a list that ends with the last
/// record closed so far. Arrow panics when the number of records does not fit
/// a 32-bit offset.
#[verifier::external_body]
pub(crate) fn close_record_list(column: &mut StructListColumn)
    requires
        struct_records(*old(column)) <= OFFSET_LIMIT,
    ensures
        struct_members(*final(column)) == struct_members(*old(column)),
        struct_fields(*final(column)) == struct_fields(*old(column)),
        struct_records(*final(column)) == struct_records(*old(column)),
        struct_ends(*final(column)) == struct_ends(*old(column)).push(
            struct_records(*old(column)) as int,
        ),
{
    column.inner.append(true);
}

/// `GenericListBuilder::finish`, which finishes the `StructBuilder` and its
/// members: hands out the closed lists, one row each and none of them null,
/// and leaves the builder empty. Arrow panics unless every member holds one
/// entry per closed record, and unless the members declared not nullable hold
/// no null.
#[verifier::external_body]
pub(crate) fn finish_struct_list(column: &mut StructListColumn) -> (finished: FinishedColumn)
    requires
        struct_fields(*old(column)).len() == struct_members(*old(column)).len(),
        forall|member: int|
            0 <= member < struct_members(*old(column)).len() ==> (#[trigger] struct_members(
                *old(column),
            )[member]).len() == struct_records(*old(column)),
        forall|member: int, at: int|
            0 <= member < struct_members(*old(column)).len() && 0 <= at < struct_members(
                *old(column),
            )[member].len() && !struct_fields(*old(column))[member].nullable ==> (
            #[trigger] struct_members(*old(column))[member][at]) is Some,
    ensures
        struct_members(*final(column)) == emptied(struct_members(*old(column))),
        struct_fields(*final(column)) == struct_fields(*old(column)),
        struct_records(*final(column)) == 0,
        struct_ends(*final(column)) == Seq::<int>::empty(),
        finished_cells(finished) == records_cells(
            struct_members(*old(column)),
            struct_ends(*old(column)),
        ),
        finished_kind(finished) == FieldKind::List(
            Box::new(item_view(FieldKind::Record(struct_fields(*old(column))))),
        ),
        finished_nulls(finished) == 0,
{
    FinishedColumn { inner: Arc::new(column.inner.finish()) }
}

/// `Field::new` with `DataType::UInt32`: a field of numbers.
#[verifier::external_body]
pub(crate) fn number_field(name: &str, nullable: bool) -> (field: Field)
    ensures
        field_view(field) == (FieldView { name: name.spec_bytes(), nullable, kind: FieldKind::Number }),
{
    Field::new(name, DataType::UInt32, nullable)
}

/// `Field::new` with `DataType::Dictionary` of 8-bit codes over strings: a
/// field of dictionary-coded strings.
#[verifier::external_body]
pub(crate) fn dictionary_field(name: &str, nullable: bool) -> (field: Field)
    ensures
        field_view(field) == (FieldView { name: name.spec_bytes(), nullable, kind: FieldKind::Coded }),
{
    let coded = DataType::Dictionary(Box::new(DataType::Int8), Box::new(DataType::Utf8));
    Field::new(name, coded, nullable)
}

/// `Field::new` with `DataType::Utf8`: a field of strings.
#[verifier::external_body]
pub(crate) fn text_field(name: &str, nullable: bool) -> (field: Field)
    ensures
        field_view(field) == (FieldView { name: name.spec_bytes(), nullable, kind: FieldKind::Text }),
{
    Field::new(name, DataType::Utf8, nullable)
}

/// `Field::new_struct`: a field of records with the given members.
#[verifier::external_body]
pub(crate) fn struct_field(name: &str, members: Vec<Field>, nullable: bool) -> (field: Field)
    ensures
        field_view(field) == (FieldView {
            name: name.spec_bytes(),
            nullable,
            kind: FieldKind::Record(field_views(members@)),
        }),
{
    Field::new_struct(name, members, nullable)
}

/// `Field::new_list`: a field of lists of the given item.
#[verifier::external_body]
pub(crate) fn list_field(name: &str, item: Field, nullable: bool) -> (field: Field)
    ensures
        field_view(field) == (FieldView {
            name: name.spec_bytes(),
            nullable,
            kind: FieldKind::List(Box::new(field_view(item))),
        }),
{
    Field::new_list(name, item, nullable)
}

/// `Schema::new`: the schema with the given fields, in their order.
#[verifier::external_body]
pub(crate) fn schema_of(fields: Vec<Field>) -> (schema: Arc<Schema>)
    ensures
        schema_fields(*schema) == field_views(fields@),
{
    Arc::new(Schema::new(fields))
}

/// `RecordBatch::try_new`: Arrow takes the columns if and only if there are
/// as many as the schema has fields, there is a first one, none holds a null
/// against its field, all have as many rows as the first, and each has the
/// type of its field. The batch then holds them as they were handed in, in
/// their order, under the schema that was handed in.
#[verifier::external_body]
pub(crate) fn assemble(schema: &Arc<Schema>, columns: Vec<FinishedColumn>) -> (assembled: Result<
    Batch,
    ArrowError,
>)
    ensures
        assembled is Ok <==> batch_accepted(schema_fields(**schema), columns@),
        assembled matches Ok(batch) ==> batch_fields(batch) == schema_fields(**schema)
            && batch_columns(batch) == Seq::new(
            columns@.len(),
            |column: int| finished_cells(columns@[column]),
        ),
{
    let arrays: Vec<ArrayRef> = columns.into_iter().map(|column| column.inner).collect();
    RecordBatch::try_new(schema.clone(), arrays).map(|inner| Batch { inner })
}

} // verus!
