//! The column builder: one Arrow builder per output field, filled field by
//! field and closed once per release, so that every column holds the same
//! number of rows.
use std::sync::Arc;

use arrow::datatypes::Schema;
use vstd::prelude::*;
use vstd::set_lib::*;
use vstd::string::*;

use crate::columns::{
    append_id, append_list_item, append_member, append_member_null, append_status, append_text,
    assemble, batch_accepted, batch_columns, batch_fields, bytes_of, close_list, close_record,
    close_record_list, entry_bytes, finish_ids, finish_statuses, finish_struct_list,
    finish_text_list, finish_texts, finished_cells, id_values, list_bytes_used, list_ends,
    list_items, list_items_used, new_id_column, new_status_column, new_struct_list,
    new_text_column, new_text_list, number_cells, records_cells, schema_fields, status_dictionary,
    status_values, struct_bytes_used, struct_ends, struct_fields, struct_members, struct_records,
    struct_records_used, text_bytes, text_bytes_used, text_cells, text_values, text_views,
    texts_cells, Batch, Cell, FieldView, FinishedColumn, IdColumn, StatusColumn, StructListColumn,
    TextColumn, TextListColumn, OFFSET_LIMIT,
};
use crate::schema::{
    artist_members, artist_names, artist_nullable, label_members, label_names, label_nullable,
    release_fields, release_schema,
};
use crate::status::{lemma_status_words, Status};
use crate::token::name_bytes;

verus! {

/// The number of releases that make a full batch.
pub const BATCH_SIZE: usize = 10000;

/// Which fields of the release under way have been written.
#[derive(Debug, Clone, Copy, PartialEq, Eq, Structural)]
pub struct ReleaseMarks {
    pub id: bool,
    pub status: bool,
    pub title: bool,
}

/// Which members of the artist under way have been written.
#[derive(Debug, Clone, Copy, PartialEq, Eq, Structural)]
pub struct ArtistMarks {
    pub id: bool,
    pub name: bool,
    pub anv: bool,
    pub join: bool,
}

/// Which members of the label under way have been written.
#[derive(Debug, Clone, Copy, PartialEq, Eq, Structural)]
pub struct LabelMarks {
    pub id: bool,
    pub cat_no: bool,
    pub name: bool,
}

/// A member of an artist record.
#[derive(Debug, Clone, Copy, PartialEq, Eq, Structural)]
pub enum ArtistField {
    Id,
    Name,
    Anv,
    Join,
}

/// A member of a label record.
#[derive(Debug, Clone, Copy, PartialEq, Eq, Structural)]
pub enum LabelField {
    Id,
    CatNo,
    Name,
}

/// A place that takes text.
#[derive(Debug, Clone, Copy, PartialEq, Eq, Structural)]
pub enum TextSlot {
    Title,
    Genre,
    Style,
    Artist(ArtistField),
    Label(LabelField),
}

/// 1 for a mark that is set, 0 for one that is not.
pub open spec fn count(mark: bool) -> int {
    if mark {
        1
    } else {
        0
    }
}

/// Whether no entry is null.
pub open spec fn all_present(entries: Seq<Option<Seq<u8>>>) -> bool {
    forall|at: int| 0 <= at < entries.len() ==> (#[trigger] entries[at]) is Some
}

/// Whether the list ends never decrease and stay within `upto`.
pub open spec fn ends_ordered(ends: Seq<int>, upto: int) -> bool {
    &&& forall|row: int| 0 <= row < ends.len() ==> 0 <= #[trigger] ends[row] <= upto
    &&& forall|row: int, later: int|
        0 <= row <= later < ends.len() ==> #[trigger] ends[row] <= #[trigger] ends[later]
}

impl ReleaseMarks {
    /// No field written.
    pub open spec fn none(self) -> bool {
        !self.id && !self.status && !self.title
    }

    /// Every field written.
    pub open spec fn complete(self) -> bool {
        self.id && self.status && self.title
    }
}

impl ArtistField {
    /// The position of the member in the artist record.
    pub open spec fn member(self) -> int {
        match self {
            ArtistField::Id => 0,
            ArtistField::Name => 1,
            ArtistField::Anv => 2,
            ArtistField::Join => 3,
        }
    }

    /// Whether the member may be null.
    pub open spec fn nullable(self) -> bool {
        self == ArtistField::Anv || self == ArtistField::Join
    }

    /// The position of the member in the artist record.
    pub fn index(self) -> (index: usize)
        ensures
            index == self.member(),
    {
        match self {
            ArtistField::Id => 0,
            ArtistField::Name => 1,
            ArtistField::Anv => 2,
            ArtistField::Join => 3,
        }
    }
}

impl LabelField {
    /// The position of the member in the label record.
    pub open spec fn member(self) -> int {
        match self {
            LabelField::Id => 0,
            LabelField::CatNo => 1,
            LabelField::Name => 2,
        }
    }

    /// The position of the member in the label record.
    pub fn index(self) -> (index: usize)
        ensures
            index == self.member(),
    {
        match self {
            LabelField::Id => 0,
            LabelField::CatNo => 1,
            LabelField::Name => 2,
        }
    }
}

impl ArtistMarks {
    /// No member written.
    pub open spec fn none(self) -> bool {
        !self.id && !self.name && !self.anv && !self.join
    }

    /// Every member written.
    pub open spec fn complete(self) -> bool {
        self.id && self.name && self.anv && self.join
    }

    /// Whether the member has been written.
    pub open spec fn has(self, field: ArtistField) -> bool {
        match field {
            ArtistField::Id => self.id,
            ArtistField::Name => self.name,
            ArtistField::Anv => self.anv,
            ArtistField::Join => self.join,
        }
    }

    /// The marks with the member's mark set.
    pub open spec fn with(self, field: ArtistField) -> ArtistMarks {
        match field {
            ArtistField::Id => ArtistMarks { id: true, ..self },
            ArtistField::Name => ArtistMarks { name: true, ..self },
            ArtistField::Anv => ArtistMarks { anv: true, ..self },
            ArtistField::Join => ArtistMarks { join: true, ..self },
        }
    }
}

impl LabelMarks {
    /// No member written.
    pub open spec fn none(self) -> bool {
        !self.id && !self.cat_no && !self.name
    }

    /// Every member written.
    pub open spec fn complete(self) -> bool {
        self.id && self.cat_no && self.name
    }

    /// Whether the member has been written.
    pub open spec fn has(self, field: LabelField) -> bool {
        match field {
            LabelField::Id => self.id,
            LabelField::CatNo => self.cat_no,
            LabelField::Name => self.name,
        }
    }

    /// The marks with the member's mark set.
    pub open spec fn with(self, field: LabelField) -> LabelMarks {
        match field {
            LabelField::Id => LabelMarks { id: true, ..self },
            LabelField::CatNo => LabelMarks { cat_no: true, ..self },
            LabelField::Name => LabelMarks { name: true, ..self },
        }
    }
}

/// What a column of lists of strings holds: the items of all lists in one
/// run, and where each closed list ends in that run.
pub struct ListView {
    pub items: Seq<Seq<u8>>,
    pub ends: Seq<int>,
}

/// What a column of lists of records holds: for each member its entries, the
/// number of closed records, and where each closed list ends among them.
pub struct RecordListView {
    pub members: Seq<Seq<Option<Seq<u8>>>>,
    pub records: nat,
    pub ends: Seq<int>,
}

/// What the seven columns hold.
pub struct Columns {
    pub ids: Seq<u32>,
    pub statuses: Seq<Seq<u8>>,
    pub titles: Seq<Seq<u8>>,
    pub artists: RecordListView,
    pub genres: ListView,
    pub styles: ListView,
    pub labels: RecordListView,
}

/// Mathematical value of a [`ReleaseBatchWriter`].
pub struct WriterView {
    /// What the schema of the batches declares, field by field.
    pub fields: Seq<FieldView>,
    /// What the builder of the artists declares for the members of a record.
    pub artist_fields: Seq<FieldView>,
    /// What the builder of the labels declares for the members of a record.
    pub label_fields: Seq<FieldView>,
    /// The words that the dictionary of the status column holds.
    pub words: Set<Seq<u8>>,
    /// The number of releases closed since the last flush.
    pub pending: nat,
    pub columns: Columns,
    pub release: ReleaseMarks,
    pub artist: ArtistMarks,
    pub label: LabelMarks,
    /// The number of releases closed since the writer was made.
    pub released: nat,
    /// The number of rows in the batches cut since the writer was made.
    pub handed: nat,
}

impl ListView {
    /// Nothing held.
    pub open spec fn empty() -> ListView {
        ListView { items: Seq::empty(), ends: Seq::empty() }
    }

    /// One more item.
    pub open spec fn with_item(self, item: Seq<u8>) -> ListView {
        ListView { items: self.items.push(item), ..self }
    }

    /// The list under way closed.
    pub open spec fn closed(self) -> ListView {
        ListView { ends: self.ends.push(self.items.len() as int), ..self }
    }

    /// The rows that the closed lists make.
    pub open spec fn cells(self) -> Seq<Cell> {
        texts_cells(self.items, self.ends)
    }
}

impl RecordListView {
    /// Nothing held, for records of `width` members.
    pub open spec fn empty(width: nat) -> RecordListView {
        RecordListView {
            members: Seq::new(width, |member: int| Seq::<Option<Seq<u8>>>::empty()),
            records: 0,
            ends: Seq::empty(),
        }
    }

    /// One more entry for one member.
    pub open spec fn with_entry(self, member: int, entry: Option<Seq<u8>>) -> RecordListView {
        RecordListView {
            members: self.members.update(member, self.members[member].push(entry)),
            ..self
        }
    }

    /// The record under way closed.
    pub open spec fn with_record(self) -> RecordListView {
        RecordListView { records: self.records + 1, ..self }
    }

    /// The list under way closed.
    pub open spec fn closed(self) -> RecordListView {
        RecordListView { ends: self.ends.push(self.records as int), ..self }
    }

    /// The rows that the closed lists make.
    pub open spec fn cells(self) -> Seq<Cell> {
        records_cells(self.members, self.ends)
    }
}

impl Columns {
    /// Nothing held.
    pub open spec fn empty() -> Columns {
        Columns {
            ids: Seq::empty(),
            statuses: Seq::empty(),
            titles: Seq::empty(),
            artists: RecordListView::empty(4),
            genres: ListView::empty(),
            styles: ListView::empty(),
            labels: RecordListView::empty(3),
        }
    }

    /// The columns as a batch holds them: in the order id, status, title,
    /// artists, genres, styles, labels, each by its rows.
    pub open spec fn cells(self) -> Seq<Seq<Cell>> {
        seq![
            number_cells(self.ids),
            text_cells(self.statuses),
            text_cells(self.titles),
            self.artists.cells(),
            self.genres.cells(),
            self.styles.cells(),
            self.labels.cells(),
        ]
    }
}

impl WriterView {
    /// The state of a new writer.
    pub open spec fn empty() -> WriterView {
        WriterView {
            fields: release_fields(),
            artist_fields: artist_members(),
            label_fields: label_members(),
            words: vocabulary(),
            pending: 0,
            columns: Columns::empty(),
            release: ReleaseMarks { id: false, status: false, title: false },
            artist: ArtistMarks { id: false, name: false, anv: false, join: false },
            label: LabelMarks { id: false, cat_no: false, name: false },
            released: 0,
            handed: 0,
        }
    }

    /// Whether the writer declares what a release holds: the schema is the
    /// one of a release, the builders of the artists and of the labels
    /// declare the members that the schema declares, and the dictionary of
    /// the status column holds words of the vocabulary only.
    pub open spec fn declared(self) -> bool {
        &&& self.fields == release_fields()
        &&& self.artist_fields == artist_members()
        &&& self.label_fields == label_members()
        &&& self.words.finite()
        &&& self.words.subset_of(vocabulary())
    }

    /// Well-formedness: the writer declares what a release holds, the
    /// columns are aligned, fewer releases are pending than make a full
    /// batch, and every release closed so far is pending or handed out.
    pub open spec fn wf(self) -> bool {
        &&& self.declared()
        &&& self.aligned()
        &&& self.pending < BATCH_SIZE
        &&& self.counted()
    }

    /// Whether the counts fit the columns: every release closed since the
    /// writer was made is either pending or a row of a batch cut earlier.
    pub open spec fn counted(self) -> bool {
        self.handed + self.pending == self.released
    }

    /// Whether the columns are aligned: every scalar column holds one row per
    /// closed release, and one more where the release under way has written
    /// it; every list column holds one closed list per closed release; every
    /// member of a record holds one entry per closed record, and one more
    /// where the record under way has written it; the members that may not be
    /// null hold no null.
    pub open spec fn aligned(self) -> bool {
        &&& self.columns.ids.len() == self.pending + count(self.release.id)
        &&& self.columns.statuses.len() == self.pending + count(self.release.status)
        &&& self.columns.titles.len() == self.pending + count(self.release.title)
        &&& self.columns.artists.ends.len() == self.pending
        &&& self.columns.genres.ends.len() == self.pending
        &&& self.columns.styles.ends.len() == self.pending
        &&& self.columns.labels.ends.len() == self.pending
        &&& self.columns.artists.members.len() == 4
        &&& self.columns.labels.members.len() == 3
        &&& self.columns.artists.members[0].len() == self.columns.artists.records + count(
            self.artist.id,
        )
        &&& self.columns.artists.members[1].len() == self.columns.artists.records + count(
            self.artist.name,
        )
        &&& self.columns.artists.members[2].len() == self.columns.artists.records + count(
            self.artist.anv,
        )
        &&& self.columns.artists.members[3].len() == self.columns.artists.records + count(
            self.artist.join,
        )
        &&& self.columns.labels.members[0].len() == self.columns.labels.records + count(
            self.label.id,
        )
        &&& self.columns.labels.members[1].len() == self.columns.labels.records + count(
            self.label.cat_no,
        )
        &&& self.columns.labels.members[2].len() == self.columns.labels.records + count(
            self.label.name,
        )
        &&& all_present(self.columns.artists.members[0])
        &&& all_present(self.columns.artists.members[1])
        &&& all_present(self.columns.labels.members[0])
        &&& all_present(self.columns.labels.members[1])
        &&& all_present(self.columns.labels.members[2])
        &&& ends_ordered(self.columns.artists.ends, self.columns.artists.records as int)
        &&& ends_ordered(self.columns.genres.ends, self.columns.genres.items.len() as int)
        &&& ends_ordered(self.columns.styles.ends, self.columns.styles.items.len() as int)
        &&& ends_ordered(self.columns.labels.ends, self.columns.labels.records as int)
        &&& self.columns.artists.records <= OFFSET_LIMIT
        &&& self.columns.genres.items.len() <= OFFSET_LIMIT
        &&& self.columns.styles.items.len() <= OFFSET_LIMIT
        &&& self.columns.labels.records <= OFFSET_LIMIT
    }

    /// No release, artist or label is under way.
    pub open spec fn at_rest(self) -> bool {
        self.release.none() && self.artist.none() && self.label.none()
    }

    /// Whether `slot` has room for `len` more bytes of text: Arrow numbers
    /// the bytes of a column, and the items of a list, with 32 bits.
    pub open spec fn fits(self, slot: TextSlot, len: nat) -> bool {
        match slot {
            TextSlot::Title => text_bytes(self.columns.titles) + len <= OFFSET_LIMIT,
            TextSlot::Genre => self.columns.genres.items.len() < OFFSET_LIMIT && text_bytes(
                self.columns.genres.items,
            ) + len <= OFFSET_LIMIT,
            TextSlot::Style => self.columns.styles.items.len() < OFFSET_LIMIT && text_bytes(
                self.columns.styles.items,
            ) + len <= OFFSET_LIMIT,
            TextSlot::Artist(field) => entry_bytes(self.columns.artists.members[field.member()])
                + len <= OFFSET_LIMIT,
            TextSlot::Label(field) => entry_bytes(self.columns.labels.members[field.member()])
                + len <= OFFSET_LIMIT,
        }
    }

    /// Whether one more artist can be closed.
    pub open spec fn artist_fits(self) -> bool {
        self.columns.artists.records < OFFSET_LIMIT
    }

    /// Whether one more label can be closed.
    pub open spec fn label_fits(self) -> bool {
        self.columns.labels.records < OFFSET_LIMIT
    }

    /// After the identifier of the release under way is written.
    pub open spec fn with_id(self, id: u32) -> WriterView {
        WriterView {
            columns: Columns { ids: self.columns.ids.push(id), ..self.columns },
            release: ReleaseMarks { id: true, ..self.release },
            ..self
        }
    }

    /// After the status of the release under way is written: its word is the
    /// new entry, and the dictionary holds it.
    pub open spec fn with_status(self, status: Status) -> WriterView {
        WriterView {
            columns: Columns {
                statuses: self.columns.statuses.push(status.bytes()),
                ..self.columns
            },
            words: self.words.insert(status.bytes()),
            release: ReleaseMarks { status: true, ..self.release },
            ..self
        }
    }

    /// After the title of the release under way is written.
    pub open spec fn with_title(self, title: Seq<u8>) -> WriterView {
        WriterView {
            columns: Columns { titles: self.columns.titles.push(title), ..self.columns },
            release: ReleaseMarks { title: true, ..self.release },
            ..self
        }
    }

    /// After one more genre is written.
    pub open spec fn with_genre(self, genre: Seq<u8>) -> WriterView {
        WriterView {
            columns: Columns { genres: self.columns.genres.with_item(genre), ..self.columns },
            ..self
        }
    }

    /// After one more style is written.
    pub open spec fn with_style(self, style: Seq<u8>) -> WriterView {
        WriterView {
            columns: Columns { styles: self.columns.styles.with_item(style), ..self.columns },
            ..self
        }
    }

    /// After a member of the artist under way is written.
    pub open spec fn with_artist_entry(
        self,
        field: ArtistField,
        entry: Option<Seq<u8>>,
    ) -> WriterView {
        WriterView {
            columns: Columns {
                artists: self.columns.artists.with_entry(field.member(), entry),
                ..self.columns
            },
            artist: self.artist.with(field),
            ..self
        }
    }

    /// After the artist under way is closed.
    pub open spec fn with_artist(self) -> WriterView {
        WriterView {
            columns: Columns { artists: self.columns.artists.with_record(), ..self.columns },
            artist: ArtistMarks { id: false, name: false, anv: false, join: false },
            ..self
        }
    }

    /// After a member of the label under way is written.
    pub open spec fn with_label_entry(self, field: LabelField, entry: Seq<u8>) -> WriterView {
        WriterView {
            columns: Columns {
                labels: self.columns.labels.with_entry(field.member(), Some(entry)),
                ..self.columns
            },
            label: self.label.with(field),
            ..self
        }
    }

    /// After the label under way is closed.
    pub open spec fn with_label(self) -> WriterView {
        WriterView {
            columns: Columns { labels: self.columns.labels.with_record(), ..self.columns },
            label: LabelMarks { id: false, cat_no: false, name: false },
            ..self
        }
    }

    /// After the release under way is closed: every list column closes its
    /// list, and one more release is pending and counted.
    pub open spec fn with_release(self) -> WriterView {
        WriterView {
            pending: self.pending + 1,
            released: self.released + 1,
            columns: Columns {
                artists: self.columns.artists.closed(),
                genres: self.columns.genres.closed(),
                styles: self.columns.styles.closed(),
                labels: self.columns.labels.closed(),
                ..self.columns
            },
            release: ReleaseMarks { id: false, status: false, title: false },
            ..self
        }
    }

    /// After a flush: nothing pending, nothing held, the dictionary empty,
    /// and what was pending counted as handed out.
    pub open spec fn flushed(self) -> WriterView {
        WriterView {
            pending: 0,
            columns: Columns::empty(),
            words: Set::empty(),
            handed: self.handed + self.pending,
            ..self
        }
    }
}

/// Gathers releases column by column and hands them out in batches.
pub struct ReleaseBatchWriter {
    pending: usize,
    ids: IdColumn,
    statuses: StatusColumn,
    titles: TextColumn,
    artists: StructListColumn,
    genres: TextListColumn,
    styles: TextListColumn,
    labels: StructListColumn,
    schema: Arc<Schema>,
    release: ReleaseMarks,
    artist: ArtistMarks,
    label: LabelMarks,
    released: Ghost<nat>,
    handed: Ghost<nat>,
}

/// The three words that a status column may hold.
pub open spec fn vocabulary() -> Set<Seq<u8>> {
    set![Status::Accepted.bytes(), Status::Draft.bytes(), Status::Deleted.bytes()]
}

impl View for ReleaseBatchWriter {
    type V = WriterView;

    closed spec fn view(&self) -> WriterView {
        WriterView {
            fields: schema_fields(*self.schema),
            artist_fields: struct_fields(self.artists),
            label_fields: struct_fields(self.labels),
            words: status_dictionary(self.statuses),
            pending: self.pending as nat,
            columns: Columns {
                ids: id_values(self.ids),
                statuses: status_values(self.statuses),
                titles: text_values(self.titles),
                artists: RecordListView {
                    members: struct_members(self.artists),
                    records: struct_records(self.artists),
                    ends: struct_ends(self.artists),
                },
                genres: ListView { items: list_items(self.genres), ends: list_ends(self.genres) },
                styles: ListView { items: list_items(self.styles), ends: list_ends(self.styles) },
                labels: RecordListView {
                    members: struct_members(self.labels),
                    records: struct_records(self.labels),
                    ends: struct_ends(self.labels),
                },
            },
            release: self.release,
            artist: self.artist,
            label: self.label,
            released: self.released@,
            handed: self.handed@,
        }
    }
}

/// The three status words are distinct, short, and make up the vocabulary.
proof fn lemma_vocabulary(words: Seq<&str>)
    requires
        words.len() == 3,
        name_bytes(words[0]) == Status::Accepted.bytes(),
        name_bytes(words[1]) == Status::Draft.bytes(),
        name_bytes(words[2]) == Status::Deleted.bytes(),
    ensures
        bytes_of(words).no_duplicates(),
        bytes_of(words).to_set() == vocabulary(),
        forall|i: int| 0 <= i < 3 ==> (#[trigger] bytes_of(words)[i]).len() <= 8,
        vocabulary().finite(),
        vocabulary().len() <= 3,
        forall|word: Seq<u8>| #[trigger] vocabulary().contains(word) ==> word.len() <= 8,
{
    lemma_status_words();
    let held = bytes_of(words);
    assert(held[0].len() == 8 && held[1].len() == 5 && held[2].len() == 7);
    assert(held.to_set() =~= vocabulary()) by {
        assert forall|word: Seq<u8>| held.to_set().contains(word) implies vocabulary().contains(
            word,
        ) by {
            let at = choose|at: int| 0 <= at < held.len() && held[at] == word;
            assert(at == 0 || at == 1 || at == 2);
        }
        assert forall|word: Seq<u8>| vocabulary().contains(word) implies held.to_set().contains(
            word,
        ) by {
            assert(word == held[0] || word == held[1] || word == held[2]);
        }
    }
    lemma_vocabulary_small();
}

/// The vocabulary holds at most three words of at most eight bytes.
proof fn lemma_vocabulary_small()
    ensures
        vocabulary().finite(),
        vocabulary().len() <= 3,
        forall|word: Seq<u8>| #[trigger] vocabulary().contains(word) ==> word.len() <= 8,
{
    lemma_status_words();
    let none = Set::<Seq<u8>>::empty();
    let one = none.insert(Status::Accepted.bytes());
    let two = one.insert(Status::Draft.bytes());
    let three = two.insert(Status::Deleted.bytes());
    assert(three =~= vocabulary());
    assert(one.len() <= 1);
    assert(two.len() <= 2);
    assert(three.len() <= 3);
}

impl ReleaseBatchWriter {
    /// Well-formedness: what the writer holds is well-formed.
    pub open spec fn wf(&self) -> bool {
        self@.wf()
    }

    /// What the schema under which the writer assembles its batches
    /// declares, field by field.
    pub open spec fn fields(&self) -> Seq<FieldView> {
        self@.fields
    }

    /// A writer that holds nothing and assembles its batches under the
    /// schema of a release.
    pub fn new() -> (writer: ReleaseBatchWriter)
        ensures
            writer.wf(),
            writer@ == WriterView::empty(),
            writer.fields() == release_fields(),
    {
        let schema = release_schema();
        let mut words: Vec<&'static str> = Vec::new();
        words.push(Status::Accepted.word());
        words.push(Status::Draft.word());
        words.push(Status::Deleted.word());
        proof {
            lemma_vocabulary(words@);
        }
        proof {
            assert(text_views(seq!["id", "name", "anv", "join"], seq![false, false, true, true])
                =~= artist_members());
            assert(text_views(seq!["id", "cat_no", "name"], seq![false, false, false])
                =~= label_members());
        }
        let writer = ReleaseBatchWriter {
            pending: 0,
            ids: new_id_column(BATCH_SIZE),
            statuses: new_status_column(3, words).unwrap(),
            titles: new_text_column(BATCH_SIZE, 512),
            artists: new_struct_list(artist_names(), artist_nullable()),
            genres: new_text_list(),
            styles: new_text_list(),
            labels: new_struct_list(label_names(), label_nullable()),
            schema,
            release: ReleaseMarks { id: false, status: false, title: false },
            artist: ArtistMarks { id: false, name: false, anv: false, join: false },
            label: LabelMarks { id: false, cat_no: false, name: false },
            released: Ghost(0),
            handed: Ghost(0),
        };
        proof {
            assert(writer@.columns.artists.members =~= RecordListView::empty(4).members);
            assert(writer@.columns.labels.members =~= RecordListView::empty(3).members);
            assert(writer@ == WriterView::empty());
        }
        writer
    }

    /// The number of releases closed since the last flush.
    pub fn pending(&self) -> (pending: usize)
        ensures
            pending == self@.pending,
    {
        self.pending
    }

    /// Which fields of the release under way have been written.
    pub fn release_marks(&self) -> (marks: ReleaseMarks)
        ensures
            marks == self@.release,
    {
        self.release
    }

    /// Which members of the artist under way have been written.
    pub fn artist_marks(&self) -> (marks: ArtistMarks)
        ensures
            marks == self@.artist,
    {
        self.artist
    }

    /// Which members of the label under way have been written.
    pub fn label_marks(&self) -> (marks: LabelMarks)
        ensures
            marks == self@.label,
    {
        self.label
    }

    /// Whether `slot` has room for `len` more bytes of text.
    pub fn fits(&self, slot: TextSlot, len: usize) -> (fits: bool)
        requires
            self.wf(),
        ensures
            fits == self@.fits(slot, len as nat),
    {
        match slot {
            TextSlot::Title => {
                let used = text_bytes_used(&self.titles);
                used <= OFFSET_LIMIT && len <= OFFSET_LIMIT - used
            },
            TextSlot::Genre => {
                let used = list_bytes_used(&self.genres);
                list_items_used(&self.genres) < OFFSET_LIMIT && used <= OFFSET_LIMIT && len
                    <= OFFSET_LIMIT - used
            },
            TextSlot::Style => {
                let used = list_bytes_used(&self.styles);
                list_items_used(&self.styles) < OFFSET_LIMIT && used <= OFFSET_LIMIT && len
                    <= OFFSET_LIMIT - used
            },
            TextSlot::Artist(field) => {
                let used = struct_bytes_used(&self.artists, field.index());
                used <= OFFSET_LIMIT && len <= OFFSET_LIMIT - used
            },
            TextSlot::Label(field) => {
                let used = struct_bytes_used(&self.labels, field.index());
                used <= OFFSET_LIMIT && len <= OFFSET_LIMIT - used
            },
        }
    }

    /// Whether `slot` has room for `text`.
    pub fn fits_text(&self, slot: TextSlot, text: &str) -> (fits: bool)
        requires
            self.wf(),
        ensures
            fits == self@.fits(slot, text.spec_bytes().len()),
    {
        self.fits(slot, text.as_bytes().len())
    }

    /// Whether one more artist can be closed.
    pub fn artist_fits(&self) -> (fits: bool)
        ensures
            fits == self@.artist_fits(),
    {
        struct_records_used(&self.artists) < OFFSET_LIMIT
    }

    /// Whether one more label can be closed.
    pub fn label_fits(&self) -> (fits: bool)
        ensures
            fits == self@.label_fits(),
    {
        struct_records_used(&self.labels) < OFFSET_LIMIT
    }

    /// Writes the identifier of the release under way.
    pub fn push_id(&mut self, id: u32)
        requires
            old(self).wf(),
            !old(self)@.release.id,
        ensures
            final(self).wf(),
            final(self)@ == old(self)@.with_id(id),
    {
        append_id(&mut self.ids, id);
        self.release.id = true;
    }

    /// Writes the status of the release under way.
    pub fn push_status(&mut self, status: Status)
        requires
            old(self).wf(),
            !old(self)@.release.status,
        ensures
            final(self).wf(),
            final(self)@ == old(self)@.with_status(status),
    {
        proof {
            lemma_vocabulary_small();
            lemma_len_subset(self@.words, vocabulary());
            assert(vocabulary().contains(status.bytes()));
        }
        append_status(&mut self.statuses, status.word());
        self.release.status = true;
    }

    /// Writes the title of the release under way.
    pub fn push_title(&mut self, title: &str)
        requires
            old(self).wf(),
            !old(self)@.release.title,
            old(self)@.fits(TextSlot::Title, title.spec_bytes().len()),
        ensures
            final(self).wf(),
            final(self)@ == old(self)@.with_title(title.spec_bytes()),
    {
        append_text(&mut self.titles, title);
        self.release.title = true;
    }

    /// Adds a genre to the release under way.
    pub fn push_genre(&mut self, genre: &str)
        requires
            old(self).wf(),
            old(self)@.fits(TextSlot::Genre, genre.spec_bytes().len()),
        ensures
            final(self).wf(),
            final(self)@ == old(self)@.with_genre(genre.spec_bytes()),
    {
        append_list_item(&mut self.genres, genre);
    }

    /// Adds a style to the release under way.
    pub fn push_style(&mut self, style: &str)
        requires
            old(self).wf(),
            old(self)@.fits(TextSlot::Style, style.spec_bytes().len()),
        ensures
            final(self).wf(),
            final(self)@ == old(self)@.with_style(style.spec_bytes()),
    {
        append_list_item(&mut self.styles, style);
    }

    /// Writes one member of the artist under way: a string, or a null.
    fn push_artist_entry(&mut self, field: ArtistField, entry: Option<&str>)
        requires
            old(self).wf(),
            !old(self)@.artist.has(field),
            entry is None ==> field.nullable(),
            entry matches Some(text) ==> old(self)@.fits(
                TextSlot::Artist(field),
                text.spec_bytes().len(),
            ),
        ensures
            final(self).wf(),
            final(self)@ == old(self)@.with_artist_entry(
                field,
                match entry {
                    Some(text) => Some(text.spec_bytes()),
                    None => None,
                },
            ),
    {
        match entry {
            Some(text) => append_member(&mut self.artists, field.index(), text),
            None => append_member_null(&mut self.artists, field.index()),
        }
        match field {
            ArtistField::Id => self.artist.id = true,
            ArtistField::Name => self.artist.name = true,
            ArtistField::Anv => self.artist.anv = true,
            ArtistField::Join => self.artist.join = true,
        }
    }

    /// Writes the identifier of the artist under way.
    pub fn push_artist_id(&mut self, id: &str)
        requires
            old(self).wf(),
            !old(self)@.artist.id,
            old(self)@.fits(TextSlot::Artist(ArtistField::Id), id.spec_bytes().len()),
        ensures
            final(self).wf(),
            final(self)@ == old(self)@.with_artist_entry(ArtistField::Id, Some(id.spec_bytes())),
    {
        self.push_artist_entry(ArtistField::Id, Some(id));
    }

    /// Writes the name of the artist under way.
    pub fn push_artist_name(&mut self, name: &str)
        requires
            old(self).wf(),
            !old(self)@.artist.name,
            old(self)@.fits(TextSlot::Artist(ArtistField::Name), name.spec_bytes().len()),
        ensures
            final(self).wf(),
            final(self)@ == old(self)@.with_artist_entry(
                ArtistField::Name,
                Some(name.spec_bytes()),
            ),
    {
        self.push_artist_entry(ArtistField::Name, Some(name));
    }

    /// Writes the name variation of the artist under way.
    pub fn push_artist_anv(&mut self, anv: &str)
        requires
            old(self).wf(),
            !old(self)@.artist.anv,
            old(self)@.fits(TextSlot::Artist(ArtistField::Anv), anv.spec_bytes().len()),
        ensures
            final(self).wf(),
            final(self)@ == old(self)@.with_artist_entry(
                ArtistField::Anv,
                Some(anv.spec_bytes()),
            ),
    {
        self.push_artist_entry(ArtistField::Anv, Some(anv));
    }

    /// Records that the artist under way has no name variation.
    pub fn push_artist_anv_null(&mut self)
        requires
            old(self).wf(),
            !old(self)@.artist.anv,
        ensures
            final(self).wf(),
            final(self)@ == old(self)@.with_artist_entry(ArtistField::Anv, None),
    {
        self.push_artist_entry(ArtistField::Anv, None);
    }

    /// Writes the join phrase of the artist under way.
    pub fn push_artist_join(&mut self, join: &str)
        requires
            old(self).wf(),
            !old(self)@.artist.join,
            old(self)@.fits(TextSlot::Artist(ArtistField::Join), join.spec_bytes().len()),
        ensures
            final(self).wf(),
            final(self)@ == old(self)@.with_artist_entry(
                ArtistField::Join,
                Some(join.spec_bytes()),
            ),
    {
        self.push_artist_entry(ArtistField::Join, Some(join));
    }

    /// Records that the artist under way has no join phrase.
    pub fn push_artist_join_null(&mut self)
        requires
            old(self).wf(),
            !old(self)@.artist.join,
        ensures
            final(self).wf(),
            final(self)@ == old(self)@.with_artist_entry(ArtistField::Join, None),
    {
        self.push_artist_entry(ArtistField::Join, None);
    }

    /// Closes the artist under way, once its four members are written.
    pub fn push_end_of_artist(&mut self)
        requires
            old(self).wf(),
            old(self)@.artist.complete(),
            old(self)@.artist_fits(),
        ensures
            final(self).wf(),
            final(self)@ == old(self)@.with_artist(),
    {
        close_record(&mut self.artists);
        self.artist = ArtistMarks { id: false, name: false, anv: false, join: false };
    }

    /// Writes one member of the label under way.
    fn push_label_entry(&mut self, field: LabelField, text: &str)
        requires
            old(self).wf(),
            !old(self)@.label.has(field),
            old(self)@.fits(TextSlot::Label(field), text.spec_bytes().len()),
        ensures
            final(self).wf(),
            final(self)@ == old(self)@.with_label_entry(field, text.spec_bytes()),
    {
        append_member(&mut self.labels, field.index(), text);
        match field {
            LabelField::Id => self.label.id = true,
            LabelField::CatNo => self.label.cat_no = true,
            LabelField::Name => self.label.name = true,
        }
    }

    /// Writes the identifier of the label under way.
    pub fn push_label_id(&mut self, id: &str)
        requires
            old(self).wf(),
            !old(self)@.label.id,
            old(self)@.fits(TextSlot::Label(LabelField::Id), id.spec_bytes().len()),
        ensures
            final(self).wf(),
            final(self)@ == old(self)@.with_label_entry(LabelField::Id, id.spec_bytes()),
    {
        self.push_label_entry(LabelField::Id, id);
    }

    /// Writes the catalogue number of the label under way.
    pub fn push_label_cat_no(&mut self, cat_no: &str)
        requires
            old(self).wf(),
            !old(self)@.label.cat_no,
            old(self)@.fits(TextSlot::Label(LabelField::CatNo), cat_no.spec_bytes().len()),
        ensures
            final(self).wf(),
            final(self)@ == old(self)@.with_label_entry(LabelField::CatNo, cat_no.spec_bytes()),
    {
        self.push_label_entry(LabelField::CatNo, cat_no);
    }

    /// Writes the name of the label under way.
    pub fn push_label_name(&mut self, name: &str)
        requires
            old(self).wf(),
            !old(self)@.label.name,
            old(self)@.fits(TextSlot::Label(LabelField::Name), name.spec_bytes().len()),
        ensures
            final(self).wf(),
            final(self)@ == old(self)@.with_label_entry(LabelField::Name, name.spec_bytes()),
    {
        self.push_label_entry(LabelField::Name, name);
    }

    /// Closes the label under way, once its three members are written.
    pub fn push_end_of_label(&mut self)
        requires
            old(self).wf(),
            old(self)@.label.complete(),
            old(self)@.label_fits(),
        ensures
            final(self).wf(),
            final(self)@ == old(self)@.with_label(),
    {
        close_record(&mut self.labels);
        self.label = LabelMarks { id: false, cat_no: false, name: false };
    }

    /// Finishes the seven builders into one batch, whatever the number of
    /// pending releases allows.
    fn flush_pending(&mut self) -> (flushed: Option<Batch>)
        requires
            old(self)@.declared(),
            old(self)@.aligned(),
            old(self)@.at_rest(),
            old(self)@.counted(),
            old(self)@.pending <= BATCH_SIZE,
        ensures
            old(self)@.pending == 0 ==> flushed is None && final(self)@ == old(self)@,
            old(self)@.pending > 0 ==> final(self)@ == old(self)@.flushed() && final(self).wf()
                && handed_out(flushed, old(self)@),
    {
        if self.pending == 0 {
            return None;
        }
        let ghost before = self@;
        let mut columns: Vec<FinishedColumn> = Vec::new();
        columns.push(finish_ids(&mut self.ids));
        columns.push(finish_statuses(&mut self.statuses));
        columns.push(finish_texts(&mut self.titles));
        columns.push(finish_struct_list(&mut self.artists));
        columns.push(finish_text_list(&mut self.genres));
        columns.push(finish_text_list(&mut self.styles));
        columns.push(finish_struct_list(&mut self.labels));
        proof {
            self.handed@ = self.handed@ + self.pending as nat;
        }
        self.pending = 0;
        proof {
            let after = self@;
            assert(after.columns.artists.members =~= RecordListView::empty(4).members);
            assert(after.columns.labels.members =~= RecordListView::empty(3).members);
            assert(after == before.flushed());
            assert(Seq::new(columns@.len(), |column: int| finished_cells(columns@[column]))
                =~= before.columns.cells());
            assert(batch_accepted(release_fields(), columns@));
        }
        Some(assemble(&self.schema, columns).unwrap())
    }

    /// Hands out the pending releases as one batch, assembled under the
    /// schema of a release, and empties the builders; does nothing where no
    /// release is pending.
    pub fn flush(&mut self) -> (flushed: Option<Batch>)
        requires
            old(self).wf(),
            old(self)@.at_rest(),
        ensures
            final(self).wf(),
            old(self)@.pending == 0 ==> flushed is None && final(self)@ == old(self)@,
            old(self)@.pending > 0 ==> final(self)@ == old(self)@.flushed() && handed_out(
                flushed,
                old(self)@,
            ),
    {
        self.flush_pending()
    }

    /// Closes the release under way, once its identifier, status and title
    /// are written: every list column closes its list and one more release is
    /// pending. The release that fills the batch flushes it.
    pub fn write_release(&mut self) -> (written: Option<Batch>)
        requires
            old(self).wf(),
            old(self)@.release.complete(),
            old(self)@.artist.none(),
            old(self)@.label.none(),
        ensures
            final(self).wf(),
            old(self)@.pending + 1 < BATCH_SIZE ==> written is None && final(self)@ == old(self)@.with_release(),
            old(self)@.pending + 1 == BATCH_SIZE ==> final(self)@ == old(self)@.with_release().flushed() && handed_out(written, old(self)@.with_release()),
    {
        close_record_list(&mut self.artists);
        close_list(&mut self.genres);
        close_list(&mut self.styles);
        close_record_list(&mut self.labels);
        self.release = ReleaseMarks { id: false, status: false, title: false };
        self.pending += 1;
        proof {
            self.released@ = self.released@ + 1;
        }
        if self.pending == BATCH_SIZE {
            self.flush_pending()
        } else {
            None
        }
    }

    /// Ends the writer: hands out what is still pending, as `flush` does.
    /// With that last batch, every release closed since the writer was made
    /// has been handed out as one row.
    pub fn close(self) -> (flushed: Option<Batch>)
        requires
            self.wf(),
            self@.at_rest(),
        ensures
            self@.pending == 0 ==> flushed is None,
            self@.pending > 0 ==> handed_out(flushed, self@),
            self@.handed + self@.pending == self@.released,
    {
        let mut writer = self;
        writer.flush_pending()
    }
}

/// What a flush of `writer` hands out: a batch under the writer's schema
/// that holds exactly the writer's columns.
pub open spec fn handed_out(flushed: Option<Batch>, writer: WriterView) -> bool {
    flushed matches Some(batch) && batch_fields(batch) == writer.fields && batch_columns(batch)
        == writer.columns.cells()
}

/// Writing a field of the release under way, an item of a list, or a member
/// of the artist or label under way keeps the columns aligned and the counts
/// as they are, provided the field or member was not written before, a null
/// goes to a member that may be null, and a list has room for the item.
pub proof fn lemma_writes_aligned(writer: WriterView)
    requires
        writer.aligned(),
    ensures
        forall|id: u32| !writer.release.id ==> (#[trigger] writer.with_id(id)).aligned(),
        forall|status: Status|
            !writer.release.status ==> (#[trigger] writer.with_status(status)).aligned(),
        forall|title: Seq<u8>|
            !writer.release.title ==> (#[trigger] writer.with_title(title)).aligned(),
        forall|genre: Seq<u8>|
            writer.fits(TextSlot::Genre, genre.len()) ==> (#[trigger] writer.with_genre(
                genre,
            )).aligned(),
        forall|style: Seq<u8>|
            writer.fits(TextSlot::Style, style.len()) ==> (#[trigger] writer.with_style(
                style,
            )).aligned(),
        forall|field: ArtistField, entry: Option<Seq<u8>>|
            !writer.artist.has(field) && (entry is None ==> field.nullable()) ==> (
            #[trigger] writer.with_artist_entry(field, entry)).aligned(),
        forall|field: LabelField, entry: Seq<u8>|
            !writer.label.has(field) ==> (#[trigger] writer.with_label_entry(
                field,
                entry,
            )).aligned(),
{
}

/// Closing the artist or the label under way, once all its members are
/// written, keeps the columns aligned. Closing the release under way, once
/// its three fields are written and no artist or label is under way, keeps
/// them aligned, leaves the writer at rest and counts one release more. A
/// flush at rest keeps them aligned and counts what was pending as handed
/// out.
pub proof fn lemma_closes_aligned(writer: WriterView)
    requires
        writer.aligned(),
    ensures
        writer.artist.complete() && writer.artist_fits() ==> writer.with_artist().aligned(),
        writer.label.complete() && writer.label_fits() ==> writer.with_label().aligned(),
        writer.release.complete() && writer.artist.none() && writer.label.none()
            ==> writer.with_release().aligned() && writer.with_release().at_rest(),
        writer.at_rest() ==> writer.flushed().aligned() && writer.flushed().at_rest(),
        writer.counted() ==> writer.with_release().counted() && writer.flushed().counted(),
{
}

} // verus!
