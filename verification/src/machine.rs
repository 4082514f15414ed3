//! The record dispatcher as a state machine: for every position in the
//! document and every token, whether the token is admitted, where the
//! dispatcher goes, and what it writes.
//!
//! The dispatcher never waits for input. It is handed one token at a time,
//! and [`step`] says what becomes of it. A token that [`admits`] refuses is
//! one on which no conversion can go on: an element that the converter does
//! not know, text that is not UTF-8, a field written twice or left out, the
//! end of the input inside an ignored element, or more than Arrow can hold.
use vstd::prelude::*;
use vstd::utf8::*;

use crate::error::ProcessingError;
use crate::grammar::{
    artist_child_of, artist_tag, child_of, label_key, only_value, ArtistChild, Child, Ignored,
    ListKind, Note,
};
use crate::status::status_of;
use crate::text::{id_value, unescaped};
use crate::token::{name_bytes, TagView, TokenView};
use crate::writer::{ArtistField, LabelField, TextSlot, WriterView, BATCH_SIZE};

verus! {

/// Where the dispatcher stands in the document.
#[derive(Debug, Clone, Copy, PartialEq, Eq, Structural)]
pub enum Position {
    /// Before the document: the start tag of the root is next.
    Root,
    /// After the start tag of the root: a line feed is next.
    RootNewline,
    /// Between releases: the start tag of a release or the end tag of the
    /// root is next.
    AwaitRecordOrEnd,
    /// Inside a release, between its children.
    ChildLoop,
    /// After the start tag of a title: its text is next.
    Title,
    /// After the text of a title: its end tag is next.
    TitleEnd,
    /// Inside a list of strings, between its items.
    ListItem(ListKind),
    /// After the start tag of an item: its text is next.
    ListText(ListKind),
    /// After the text of an item: its end tag is next.
    ListItemEnd(ListKind),
    /// Inside the labels, between two of them.
    Label,
    /// Inside the images, between two of them.
    Image,
    /// Inside the artists, between two of them.
    Artists,
    /// Inside an artist, between its children.
    Artist,
    /// After the start tag of a member of an artist: its text is next, or its
    /// end tag where the member may be null.
    ArtistText(ArtistField),
    /// After the text of a member of an artist: its end tag is next.
    ArtistMemberEnd(ArtistField),
    /// After the start tag of a child of an artist that must be empty: its
    /// end tag is next.
    ArtistNote(Note),
    /// Inside an ignored child of a release, below that many more start tags
    /// of the same name.
    Skip(Ignored, u64),
    /// After the end tag of a release: a line feed is next.
    RecordClosed,
    /// After the end tag of the root: a line feed is next.
    TrailerNewline,
    /// After the last line feed: the end of the input is next.
    TrailerEof,
    /// After the end of the input.
    Done,
}

/// Mathematical value of a dispatcher: its position and what its writer
/// holds.
pub struct DispatcherView {
    pub position: Position,
    pub writer: WriterView,
}

/// What a step asks of the caller.
#[derive(Debug, Clone, Copy, PartialEq, Eq, Structural)]
pub enum Effect {
    /// Nothing: hand in the next token.
    Continue,
    /// A release was closed; with `true`, it filled a batch, which is handed
    /// out.
    Released(bool),
    /// The last release was read; with `true`, the releases still pending are
    /// handed out as a last batch.
    Finished(bool),
    /// The input ended where it should.
    Done,
}

/// What a step does: the error or the effect, and the state afterwards.
pub struct Outcome {
    pub result: Result<Effect, ProcessingError>,
    pub next: DispatcherView,
}

impl ListKind {
    /// The place where the items of the list are written.
    pub open spec fn slot(self) -> TextSlot {
        match self {
            ListKind::Genres => TextSlot::Genre,
            ListKind::Styles => TextSlot::Style,
        }
    }
}

impl WriterView {
    /// After one more item is written to a list of strings.
    pub open spec fn with_item(self, kind: ListKind, item: Seq<u8>) -> WriterView {
        match kind {
            ListKind::Genres => self.with_genre(item),
            ListKind::Styles => self.with_style(item),
        }
    }

    /// Whether `text` can be written to `slot`: it is UTF-8 and the slot has
    /// room for it.
    pub open spec fn takes(self, slot: TextSlot, text: Seq<u8>) -> bool {
        valid_utf8(text) && self.fits(slot, text.len())
    }

    /// After a release is closed, and flushed where it filled the batch.
    pub open spec fn after_release(self) -> WriterView {
        if self.with_release().pending == BATCH_SIZE {
            self.with_release().flushed()
        } else {
            self.with_release()
        }
    }

    /// After the writer is closed: flushed where anything was pending.
    pub open spec fn after_close(self) -> WriterView {
        if self.pending > 0 {
            self.flushed()
        } else {
            self
        }
    }
}

impl DispatcherView {
    /// The step that fails and changes nothing.
    pub open spec fn fail(self, error: ProcessingError) -> Outcome {
        Outcome { result: Err(error), next: self }
    }

    /// The step that moves to `position` and writes nothing.
    pub open spec fn go(self, position: Position) -> Outcome {
        Outcome { result: Ok(Effect::Continue), next: DispatcherView { position, ..self } }
    }

    /// The step that moves to `position` and leaves the writer as `writer`.
    pub open spec fn write(self, writer: WriterView, position: Position) -> Outcome {
        Outcome { result: Ok(Effect::Continue), next: DispatcherView { position, writer } }
    }

    /// The invariants of a dispatcher, all together: the columns are aligned,
    /// fewer releases are pending than make a batch, the marks fit the
    /// position and the counts fit the writer.
    pub open spec fn sound(self) -> bool {
        &&& self.writer.aligned()
        &&& self.writer.pending < BATCH_SIZE
        &&& self.consistent()
        &&& self.counted()
    }

    /// Whether the counts fit the position: every release closed so far is
    /// either pending in the writer or a row of a batch cut earlier, and until
    /// the writer is closed only full batches are cut.
    pub open spec fn counted(self) -> bool {
        &&& self.writer.counted()
        &&& match self.position {
            Position::TrailerNewline | Position::TrailerEof | Position::Done => true,
            _ => self.writer.handed % (BATCH_SIZE as nat) == 0,
        }
    }

    /// Whether the marks of the writer fit the position: outside a release
    /// nothing is under way, inside one its identifier and status are
    /// written, and a member of an artist is marked exactly when the
    /// dispatcher has read it.
    pub open spec fn consistent(self) -> bool {
        match self.position {
            Position::Root | Position::RootNewline | Position::AwaitRecordOrEnd => {
                self.writer.at_rest()
            },
            Position::TrailerNewline | Position::TrailerEof | Position::Done => {
                self.writer.at_rest() && self.writer.pending == 0
            },
            Position::Artist | Position::ArtistNote(_) => {
                self.writer.release.id && self.writer.release.status && self.writer.label.none()
            },
            Position::ArtistText(field) => {
                self.writer.release.id && self.writer.release.status && self.writer.label.none()
                    && !self.writer.artist.has(field)
            },
            Position::ArtistMemberEnd(field) => {
                self.writer.release.id && self.writer.release.status && self.writer.label.none()
                    && self.writer.artist.has(field)
            },
            Position::Title => {
                self.writer.release.id && self.writer.release.status && !self.writer.release.title
                    && self.writer.artist.none() && self.writer.label.none()
            },
            Position::RecordClosed | Position::TitleEnd => {
                self.writer.release.complete() && self.writer.artist.none()
                    && self.writer.label.none()
            },
            _ => {
                self.writer.release.id && self.writer.release.status && self.writer.artist.none()
                    && self.writer.label.none()
            },
        }
    }
}

/// Whether the attributes of a release can be written: exactly one `id`,
/// which spells a number of 32 bits, and exactly one `status`.
pub open spec fn release_admits(tag: TagView) -> bool {
    &&& only_value(tag.attributes, name_bytes("id")) matches Some(id) && id_value(id) is Some
    &&& only_value(tag.attributes, name_bytes("status")) is Some
}

/// The writer after the attributes of a release are written; `None` where
/// the status is none of the three words.
pub open spec fn with_attributes(writer: WriterView, tag: TagView) -> Option<WriterView> {
    let id = id_value(only_value(tag.attributes, name_bytes("id"))->Some_0)->Some_0;
    match status_of(only_value(tag.attributes, name_bytes("status"))->Some_0) {
        Some(status) => Some(writer.with_id(id).with_status(status)),
        None => None,
    }
}

/// The value of the attribute that holds a member of a label.
pub open spec fn label_value(tag: TagView, field: LabelField) -> Option<Seq<u8>> {
    only_value(tag.attributes, name_bytes(label_key(field)))
}

/// Whether a label can be written: each of `id`, `catno` and `name` stands
/// exactly once and can be written to its member, and one more label can be
/// closed.
pub open spec fn label_admits(writer: WriterView, tag: TagView) -> bool {
    &&& label_value(tag, LabelField::Id) matches Some(id) && writer.takes(
        TextSlot::Label(LabelField::Id),
        id,
    )
    &&& label_value(tag, LabelField::CatNo) matches Some(cat_no) && writer.takes(
        TextSlot::Label(LabelField::CatNo),
        cat_no,
    )
    &&& label_value(tag, LabelField::Name) matches Some(name) && writer.takes(
        TextSlot::Label(LabelField::Name),
        name,
    )
    &&& writer.label_fits()
}

/// The writer after a label is written and closed.
pub open spec fn with_label_tag(writer: WriterView, tag: TagView) -> WriterView {
    writer.with_label_entry(
        LabelField::Id,
        label_value(tag, LabelField::Id)->Some_0,
    ).with_label_entry(
        LabelField::CatNo,
        label_value(tag, LabelField::CatNo)->Some_0,
    ).with_label_entry(LabelField::Name, label_value(tag, LabelField::Name)->Some_0).with_label()
}

/// Whether `token` is admitted at the position and with the writer of
/// `state`.
pub open spec fn admits(state: DispatcherView, token: TokenView) -> bool {
    match state.position {
        Position::AwaitRecordOrEnd => !token.is_end_of("releases") && token.is_start_of("release")
            ==> release_admits(token->Start_0),
        Position::ChildLoop => if token.is_end_of("release") {
            state.writer.release.title
        } else {
            match token {
                TokenView::Start(tag) => match child_of(tag.name) {
                    Some(Child::Title) => !state.writer.release.title,
                    Some(_) => true,
                    None => false,
                },
                _ => true,
            }
        },
        Position::Title => token matches TokenView::Text(content) ==> state.writer.takes(
            TextSlot::Title,
            content,
        ),
        Position::ListText(kind) => token matches TokenView::Text(content) ==> valid_utf8(content)
            && state.writer.fits(kind.slot(), unescaped(content).len()),
        Position::Label => !token.is_end_of("labels") && token.is_empty_of("label")
            ==> label_admits(state.writer, token->Empty_0),
        Position::Artist => if token.is_end_of("artist") {
            state.writer.artist.complete() && state.writer.artist_fits()
        } else {
            match token {
                TokenView::Start(tag) => match artist_child_of(tag.name) {
                    Some(ArtistChild::Member(field)) => !state.writer.artist.has(field),
                    Some(ArtistChild::Note(_)) => true,
                    None => false,
                },
                _ => true,
            }
        },
        Position::ArtistText(field) => token matches TokenView::Text(content)
            ==> state.writer.takes(TextSlot::Artist(field), content),
        Position::Skip(kind, depth) => !(token is Eof) && (token.is_start_of(kind.tag())
            ==> depth < u64::MAX),
        Position::Done => false,
        _ => true,
    }
}

/// What becomes of an admitted `token` at the position and with the writer
/// of `state`.
pub open spec fn step(state: DispatcherView, token: TokenView) -> Outcome {
    match state.position {
        Position::Root => if token.is_start_of("releases") {
            state.go(Position::RootNewline)
        } else {
            state.fail(ProcessingError::ExpectedStartOf("releases"))
        },
        Position::RootNewline => if token.is_new_line() {
            state.go(Position::AwaitRecordOrEnd)
        } else {
            state.fail(ProcessingError::ExpectedNewline)
        },
        Position::AwaitRecordOrEnd => if token.is_end_of("releases") {
            Outcome {
                result: Ok(Effect::Finished(state.writer.pending > 0)),
                next: DispatcherView {
                    position: Position::TrailerNewline,
                    writer: state.writer.after_close(),
                },
            }
        } else if token.is_start_of("release") {
            match with_attributes(state.writer, token->Start_0) {
                Some(writer) => state.write(writer, Position::ChildLoop),
                None => state.fail(ProcessingError::UnknownStatus),
            }
        } else {
            state.fail(ProcessingError::ExpectedStartOf("release"))
        },
        Position::ChildLoop => if token.is_end_of("release") {
            state.go(Position::RecordClosed)
        } else if token is Empty {
            state.go(Position::ChildLoop)
        } else {
            match token {
                TokenView::Start(tag) => match child_of(tag.name) {
                    Some(Child::Title) => state.go(Position::Title),
                    Some(Child::Genres) => state.go(Position::ListItem(ListKind::Genres)),
                    Some(Child::Styles) => state.go(Position::ListItem(ListKind::Styles)),
                    Some(Child::Images) => state.go(Position::Image),
                    Some(Child::Artists) => state.go(Position::Artists),
                    Some(Child::Labels) => state.go(Position::Label),
                    Some(Child::Ignored(kind)) => state.go(Position::Skip(kind, 0)),
                    None => state.fail(ProcessingError::ExpectedStart),
                },
                _ => state.fail(ProcessingError::ExpectedStart),
            }
        },
        Position::Title => match token {
            TokenView::Text(content) => state.write(
                state.writer.with_title(content),
                Position::TitleEnd,
            ),
            _ => state.fail(ProcessingError::ExpectedText),
        },
        Position::TitleEnd => if token.is_end_of("title") {
            state.go(Position::ChildLoop)
        } else {
            state.fail(ProcessingError::ExpectedEndOf("title"))
        },
        Position::ListItem(kind) => if token.is_end_of(kind.list_tag()) {
            state.go(Position::ChildLoop)
        } else if token.is_start_of(kind.item_tag()) {
            state.go(Position::ListText(kind))
        } else {
            state.fail(ProcessingError::ExpectedStartOf(kind.item_tag()))
        },
        Position::ListText(kind) => match token {
            TokenView::Text(content) => state.write(
                state.writer.with_item(kind, unescaped(content)),
                Position::ListItemEnd(kind),
            ),
            _ => state.fail(ProcessingError::ExpectedText),
        },
        Position::ListItemEnd(kind) => if token.is_end_of(kind.item_tag()) {
            state.go(Position::ListItem(kind))
        } else {
            state.fail(ProcessingError::ExpectedEndOf(kind.item_tag()))
        },
        Position::Label => if token.is_end_of("labels") {
            state.go(Position::ChildLoop)
        } else if token.is_empty_of("label") {
            state.write(with_label_tag(state.writer, token->Empty_0), Position::Label)
        } else {
            state.fail(ProcessingError::ExpectedEmpty("label"))
        },
        Position::Image => if token.is_end_of("images") {
            state.go(Position::ChildLoop)
        } else if token.is_empty_of("image") {
            state.go(Position::Image)
        } else {
            state.fail(ProcessingError::ExpectedEmpty("image"))
        },
        Position::Artists => if token.is_end_of("artists") {
            state.go(Position::ChildLoop)
        } else if token.is_start_of("artist") {
            state.go(Position::Artist)
        } else {
            state.fail(ProcessingError::ExpectedStartOf("artist"))
        },
        Position::Artist => if token.is_end_of("artist") {
            state.write(state.writer.with_artist(), Position::Artists)
        } else {
            match token {
                TokenView::Start(tag) => match artist_child_of(tag.name) {
                    Some(ArtistChild::Member(field)) => state.go(Position::ArtistText(field)),
                    Some(ArtistChild::Note(note)) => state.go(Position::ArtistNote(note)),
                    None => state.fail(ProcessingError::ExpectedStart),
                },
                _ => state.fail(ProcessingError::ExpectedStart),
            }
        },
        Position::ArtistText(field) => if field.nullable() && token.is_end_of(artist_tag(field)) {
            state.write(state.writer.with_artist_entry(field, None), Position::Artist)
        } else {
            match token {
                TokenView::Text(content) => state.write(
                    state.writer.with_artist_entry(field, Some(content)),
                    Position::ArtistMemberEnd(field),
                ),
                _ => state.fail(ProcessingError::ExpectedText),
            }
        },
        Position::ArtistMemberEnd(field) => if token.is_end_of(artist_tag(field)) {
            state.go(Position::Artist)
        } else {
            state.fail(ProcessingError::ExpectedEndOf(artist_tag(field)))
        },
        Position::ArtistNote(note) => if token.is_end_of(note.tag()) {
            state.go(Position::Artist)
        } else {
            state.fail(ProcessingError::ExpectedEndOf(note.tag()))
        },
        Position::Skip(kind, depth) => if token.is_end_of(kind.tag()) {
            if depth == 0 {
                state.go(Position::ChildLoop)
            } else {
                state.go(Position::Skip(kind, (depth - 1) as u64))
            }
        } else if token.is_start_of(kind.tag()) {
            state.go(Position::Skip(kind, (depth + 1) as u64))
        } else {
            state.go(Position::Skip(kind, depth))
        },
        Position::RecordClosed => if token.is_new_line() {
            Outcome {
                result: Ok(Effect::Released(state.writer.with_release().pending == BATCH_SIZE)),
                next: DispatcherView {
                    position: Position::AwaitRecordOrEnd,
                    writer: state.writer.after_release(),
                },
            }
        } else {
            state.fail(ProcessingError::ExpectedNewline)
        },
        Position::TrailerNewline => if token.is_new_line() {
            state.go(Position::TrailerEof)
        } else {
            state.fail(ProcessingError::ExpectedNewline)
        },
        Position::TrailerEof => if token is Eof {
            Outcome {
                result: Ok(Effect::Done),
                next: DispatcherView { position: Position::Done, ..state },
            }
        } else {
            state.fail(ProcessingError::ExpectedEof)
        },
        Position::Done => state.fail(ProcessingError::ExpectedEof),
    }
}

} // verus!
