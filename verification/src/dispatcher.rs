//! The record dispatcher: reads a document token by token, writes what it
//! extracts to the column builder, and hands out the batches.
use vstd::prelude::*;

use crate::columns::Batch;
use crate::error::ProcessingError;
use crate::grammar::{
    artist_name, find_only, label_attribute, read_artist_child, read_child, ArtistChild, Child,
    Ignored, ListKind,
};
use crate::machine::{
    admits, label_admits, release_admits, step, with_attributes, DispatcherView, Effect, Outcome,
    Position,
};
use crate::status::Status;
use crate::text::{as_text, lemma_unescaped_valid, parse_id, unescape};
use crate::token::{Tag, Token};
use crate::writer::{
    handed_out, ArtistField, LabelField, ReleaseBatchWriter, TextSlot, WriterView,
};

verus! {

/// What the caller is to do after a token.
#[derive(Debug)]
pub enum Action {
    /// Hand in the next token.
    Continue,
    /// A release was closed. Where it filled a batch, write the batch; then
    /// hand in the next token.
    Released(Option<Batch>),
    /// The last release was read. Write the batch, if there is one, and
    /// finish the output; then hand in the next token.
    Finished(Option<Batch>),
    /// The input ended where it should: the conversion is complete.
    Done,
}

/// Whether what a step did is what `expected` says: the state afterwards is
/// the expected one, the result is the expected error or effect, and a batch
/// is handed out exactly where one is due, under the writer's schema, and
/// holds the columns as they stood when it was cut.
pub open spec fn agrees(
    expected: Outcome,
    before: DispatcherView,
    result: Result<Action, ProcessingError>,
    after: DispatcherView,
) -> bool {
    &&& after == expected.next
    &&& match expected.result {
        Err(error) => result == Err::<Action, ProcessingError>(error),
        Ok(Effect::Continue) => result == Ok::<Action, ProcessingError>(Action::Continue),
        Ok(Effect::Done) => result == Ok::<Action, ProcessingError>(Action::Done),
        Ok(Effect::Released(false)) => result == Ok::<Action, ProcessingError>(
            Action::Released(None),
        ),
        Ok(Effect::Finished(false)) => result == Ok::<Action, ProcessingError>(
            Action::Finished(None),
        ),
        Ok(Effect::Released(true)) => match result {
            Ok(Action::Released(batch)) => handed_out(batch, before.writer.with_release()),
            _ => false,
        },
        Ok(Effect::Finished(true)) => match result {
            Ok(Action::Finished(batch)) => handed_out(batch, before.writer),
            _ => false,
        },
    }
}

/// Writes the identifier and the status that a release carries as
/// attributes. Other attributes are passed over. A status that is none of
/// the three words is refused, and nothing is written.
pub fn parse_release_attributes(tag: &Tag, writer: &mut ReleaseBatchWriter) -> (parsed: Result<
    (),
    ProcessingError,
>)
    requires
        old(writer).wf(),
        old(writer)@.release.none(),
        release_admits(tag@),
    ensures
        final(writer).wf(),
        match with_attributes(old(writer)@, tag@) {
            Some(written) => parsed == Ok::<(), ProcessingError>(()) && final(writer)@ == written,
            None => parsed == Err::<(), ProcessingError>(ProcessingError::UnknownStatus)
                && final(writer)@ == old(writer)@,
        },
{
    let id = parse_id(find_only(&tag.attributes, "id").unwrap().as_slice()).unwrap();
    match Status::from_bytes(find_only(&tag.attributes, "status").unwrap()) {
        Some(status) => {
            writer.push_id(id);
            writer.push_status(status);
            Ok(())
        },
        None => Err(ProcessingError::UnknownStatus),
    }
}

/// Whether the attributes of a release can be written.
pub fn release_accepted(tag: &Tag) -> (accepted: bool)
    ensures
        accepted == release_admits(tag@),
{
    let id = match find_only(&tag.attributes, "id") {
        Some(id) => parse_id(id.as_slice()).is_some(),
        None => false,
    };
    id && find_only(&tag.attributes, "status").is_some()
}

/// Reads a document and gathers its releases.
pub struct Dispatcher {
    position: Position,
    writer: ReleaseBatchWriter,
}

impl View for Dispatcher {
    type V = DispatcherView;

    closed spec fn view(&self) -> DispatcherView {
        DispatcherView { position: self.position, writer: self.writer@ }
    }
}

impl Dispatcher {
    /// Well-formedness: the writer is well-formed, its marks fit the
    /// position, and only full batches are cut until the writer is closed.
    pub open spec fn wf(&self) -> bool {
        self@.writer.wf() && self@.sound()
    }

    /// A dispatcher at the start of a document, with an empty writer.
    pub fn new() -> (dispatcher: Dispatcher)
        ensures
            dispatcher.wf(),
            dispatcher@ == (DispatcherView { position: Position::Root, writer: WriterView::empty() }),
    {
        Dispatcher { position: Position::Root, writer: ReleaseBatchWriter::new() }
    }

    /// Where the dispatcher stands.
    pub fn position(&self) -> (position: Position)
        ensures
            position == self@.position,
    {
        self.position
    }

    /// The number of releases closed and not yet handed out.
    pub fn pending(&self) -> (pending: usize)
        ensures
            pending == self@.writer.pending,
    {
        self.writer.pending()
    }

    /// Whether the input has ended where it should.
    pub fn is_done(&self) -> (done: bool)
        ensures
            done == (self@.position is Done),
    {
        match self.position {
            Position::Done => true,
            _ => false,
        }
    }

    /// Reads the title of a release: its text, then its end tag.
    pub fn parse_title(&mut self, token: &Token) -> (result: Result<Action, ProcessingError>)
        requires
            old(self).wf(),
            old(self)@.position is Title || old(self)@.position is TitleEnd,
            admits(old(self)@, token@),
        ensures
            final(self).wf(),
            agrees(step(old(self)@, token@), old(self)@, result, final(self)@),
    {
        match self.position {
            Position::Title => match token.expect_text() {
                Ok(content) => {
                    let title = as_text(content.as_slice()).unwrap();
                    self.writer.push_title(title);
                    self.position = Position::TitleEnd;
                    Ok(Action::Continue)
                },
                Err(error) => Err(error),
            },
            _ => match token.expect_end_of("title") {
                Ok(()) => {
                    self.position = Position::ChildLoop;
                    Ok(Action::Continue)
                },
                Err(error) => Err(error),
            },
        }
    }

    /// Reads between the children of a release: the end tag of the release,
    /// a self-closing child, which is passed over, or the start tag of a child
    /// that the converter knows. After the end tag, reads the line feed and
    /// closes the release.
    pub fn parse_release(&mut self, token: &Token) -> (result: Result<Action, ProcessingError>)
        requires
            old(self).wf(),
            old(self)@.position is ChildLoop || old(self)@.position is RecordClosed,
            admits(old(self)@, token@),
        ensures
            final(self).wf(),
            agrees(step(old(self)@, token@), old(self)@, result, final(self)@),
    {
        match self.position {
            Position::ChildLoop => {
                if token.is_end_of("release") {
                    self.position = Position::RecordClosed;
                    return Ok(Action::Continue);
                }
                if token.is_empty_tag() {
                    return Ok(Action::Continue);
                }
                match token.expect_start() {
                    Ok(tag) => match read_child(&tag.name) {
                        Some(child) => {
                            self.position = match child {
                                Child::Title => Position::Title,
                                Child::Genres => Position::ListItem(ListKind::Genres),
                                Child::Styles => Position::ListItem(ListKind::Styles),
                                Child::Images => Position::Image,
                                Child::Artists => Position::Artists,
                                Child::Labels => Position::Label,
                                Child::Ignored(kind) => Position::Skip(kind, 0),
                            };
                            Ok(Action::Continue)
                        },
                        None => Err(ProcessingError::ExpectedStart),
                    },
                    Err(error) => Err(error),
                }
            },
            _ => match token.expect_new_line() {
                Ok(()) => {
                    let written = self.writer.write_release();
                    self.position = Position::AwaitRecordOrEnd;
                    Ok(Action::Released(written))
                },
                Err(error) => Err(error),
            },
        }
    }

    /// Reads a list of strings: the start tag, the text and the end tag of
    /// each item, until the end tag of the list. Every `&amp;` in an item is
    /// written as `&`.
    fn parse_text_list(&mut self, kind: ListKind, token: &Token) -> (result: Result<
        Action,
        ProcessingError,
    >)
        requires
            old(self).wf(),
            old(self)@.position == Position::ListItem(kind) || old(self)@.position
                == Position::ListText(kind) || old(self)@.position == Position::ListItemEnd(kind),
            admits(old(self)@, token@),
        ensures
            final(self).wf(),
            agrees(step(old(self)@, token@), old(self)@, result, final(self)@),
    {
        match self.position {
            Position::ListItem(_) => {
                if token.is_end_of(kind.list_name()) {
                    self.position = Position::ChildLoop;
                    return Ok(Action::Continue);
                }
                match token.expect_start_of(kind.item_name()) {
                    Ok(_) => {
                        self.position = Position::ListText(kind);
                        Ok(Action::Continue)
                    },
                    Err(error) => Err(error),
                }
            },
            Position::ListText(_) => match token.expect_text() {
                Ok(content) => {
                    let plain = unescape(content.as_slice());
                    proof {
                        lemma_unescaped_valid(content@);
                    }
                    let item = as_text(plain.as_slice()).unwrap();
                    match kind {
                        ListKind::Genres => self.writer.push_genre(item),
                        ListKind::Styles => self.writer.push_style(item),
                    }
                    self.position = Position::ListItemEnd(kind);
                    Ok(Action::Continue)
                },
                Err(error) => Err(error),
            },
            _ => match token.expect_end_of(kind.item_name()) {
                Ok(()) => {
                    self.position = Position::ListItem(kind);
                    Ok(Action::Continue)
                },
                Err(error) => Err(error),
            },
        }
    }

    /// Reads the genres of a release.
    pub fn parse_genres(&mut self, token: &Token) -> (result: Result<Action, ProcessingError>)
        requires
            old(self).wf(),
            old(self)@.position == Position::ListItem(ListKind::Genres) || old(self)@.position
                == Position::ListText(ListKind::Genres) || old(self)@.position
                == Position::ListItemEnd(ListKind::Genres),
            admits(old(self)@, token@),
        ensures
            final(self).wf(),
            agrees(step(old(self)@, token@), old(self)@, result, final(self)@),
    {
        self.parse_text_list(ListKind::Genres, token)
    }

    /// Reads the styles of a release.
    pub fn parse_styles(&mut self, token: &Token) -> (result: Result<Action, ProcessingError>)
        requires
            old(self).wf(),
            old(self)@.position == Position::ListItem(ListKind::Styles) || old(self)@.position
                == Position::ListText(ListKind::Styles) || old(self)@.position
                == Position::ListItemEnd(ListKind::Styles),
            admits(old(self)@, token@),
        ensures
            final(self).wf(),
            agrees(step(old(self)@, token@), old(self)@, result, final(self)@),
    {
        self.parse_text_list(ListKind::Styles, token)
    }

    /// Reads the labels of a release: self-closing tags that carry the
    /// identifier, the catalogue number and the name as attributes, until the
    /// end tag of the labels.
    pub fn parse_labels(&mut self, token: &Token) -> (result: Result<Action, ProcessingError>)
        requires
            old(self).wf(),
            old(self)@.position is Label,
            admits(old(self)@, token@),
        ensures
            final(self).wf(),
            agrees(step(old(self)@, token@), old(self)@, result, final(self)@),
    {
        if token.is_end_of("labels") {
            self.position = Position::ChildLoop;
            return Ok(Action::Continue);
        }
        match token.expect_empty("label") {
            Ok(tag) => {
                let id = find_only(&tag.attributes, label_attribute(LabelField::Id)).unwrap();
                let cat_no = find_only(&tag.attributes, label_attribute(LabelField::CatNo)).unwrap();
                let name = find_only(&tag.attributes, label_attribute(LabelField::Name)).unwrap();
                self.writer.push_label_id(as_text(id.as_slice()).unwrap());
                self.writer.push_label_cat_no(as_text(cat_no.as_slice()).unwrap());
                self.writer.push_label_name(as_text(name.as_slice()).unwrap());
                self.writer.push_end_of_label();
                Ok(Action::Continue)
            },
            Err(error) => Err(error),
        }
    }

    /// Reads the images of a release: self-closing tags, none of which is
    /// stored, until the end tag of the images.
    pub fn parse_images(&mut self, token: &Token) -> (result: Result<Action, ProcessingError>)
        requires
            old(self).wf(),
            old(self)@.position is Image,
            admits(old(self)@, token@),
        ensures
            final(self).wf(),
            agrees(step(old(self)@, token@), old(self)@, result, final(self)@),
    {
        if token.is_end_of("images") {
            self.position = Position::ChildLoop;
            return Ok(Action::Continue);
        }
        match token.expect_empty("image") {
            Ok(_) => Ok(Action::Continue),
            Err(error) => Err(error),
        }
    }

    /// Reads between the artists of a release: the start tag of an artist, or
    /// the end tag of the artists.
    pub fn parse_artists(&mut self, token: &Token) -> (result: Result<Action, ProcessingError>)
        requires
            old(self).wf(),
            old(self)@.position is Artists,
            admits(old(self)@, token@),
        ensures
            final(self).wf(),
            agrees(step(old(self)@, token@), old(self)@, result, final(self)@),
    {
        if token.is_end_of("artists") {
            self.position = Position::ChildLoop;
            return Ok(Action::Continue);
        }
        match token.expect_start_of("artist") {
            Ok(_) => {
                self.position = Position::Artist;
                Ok(Action::Continue)
            },
            Err(error) => Err(error),
        }
    }

    /// Reads one artist. The identifier and the name must hold text. The name
    /// variation and the join phrase hold text or nothing, and nothing is
    /// written as null. The role and the tracks must be empty and are not
    /// stored. The end tag of the artist closes the record.
    pub fn parse_artist(&mut self, token: &Token) -> (result: Result<Action, ProcessingError>)
        requires
            old(self).wf(),
            old(self)@.position is Artist || old(self)@.position is ArtistText || old(self)@.position is ArtistMemberEnd || old(self)@.position is ArtistNote,
            admits(old(self)@, token@),
        ensures
            final(self).wf(),
            agrees(step(old(self)@, token@), old(self)@, result, final(self)@),
    {
        match self.position {
            Position::ArtistText(field) => self.parse_artist_member(field, token),
            Position::ArtistMemberEnd(field) => match token.expect_end_of(artist_name(field)) {
                Ok(()) => {
                    self.position = Position::Artist;
                    Ok(Action::Continue)
                },
                Err(error) => Err(error),
            },
            Position::ArtistNote(note) => match token.expect_end_of(note.name()) {
                Ok(()) => {
                    self.position = Position::Artist;
                    Ok(Action::Continue)
                },
                Err(error) => Err(error),
            },
            _ => {
                if token.is_end_of("artist") {
                    self.writer.push_end_of_artist();
                    self.position = Position::Artists;
                    return Ok(Action::Continue);
                }
                match token.expect_start() {
                    Ok(tag) => match read_artist_child(&tag.name) {
                        Some(ArtistChild::Member(field)) => {
                            self.position = Position::ArtistText(field);
                            Ok(Action::Continue)
                        },
                        Some(ArtistChild::Note(note)) => {
                            self.position = Position::ArtistNote(note);
                            Ok(Action::Continue)
                        },
                        None => Err(ProcessingError::ExpectedStart),
                    },
                    Err(error) => Err(error),
                }
            },
        }
    }

    /// Reads what follows the start tag of a member of an artist: its text,
    /// or at once its end tag where the member may be null.
    fn parse_artist_member(&mut self, field: ArtistField, token: &Token) -> (result: Result<
        Action,
        ProcessingError,
    >)
        requires
            old(self).wf(),
            old(self)@.position == Position::ArtistText(field),
            admits(old(self)@, token@),
        ensures
            final(self).wf(),
            agrees(step(old(self)@, token@), old(self)@, result, final(self)@),
    {
        match field {
            ArtistField::Anv => {
                if token.is_end_of("anv") {
                    self.writer.push_artist_anv_null();
                    self.position = Position::Artist;
                    return Ok(Action::Continue);
                }
            },
            ArtistField::Join => {
                if token.is_end_of("join") {
                    self.writer.push_artist_join_null();
                    self.position = Position::Artist;
                    return Ok(Action::Continue);
                }
            },
            _ => {},
        }
        match token.expect_text() {
            Ok(content) => {
                let text = as_text(content.as_slice()).unwrap();
                match field {
                    ArtistField::Id => self.writer.push_artist_id(text),
                    ArtistField::Name => self.writer.push_artist_name(text),
                    ArtistField::Anv => self.writer.push_artist_anv(text),
                    ArtistField::Join => self.writer.push_artist_join(text),
                }
                self.position = Position::ArtistMemberEnd(field);
                Ok(Action::Continue)
            },
            Err(error) => Err(error),
        }
    }

    /// Reads past an ignored child of a release: everything up to the end
    /// tag that closes it. A start tag of the same name inside it opens one
    /// more level, which its own end tag closes.
    pub fn parse_ignored(&mut self, kind: Ignored, depth: u64, token: &Token) -> (result: Result<
        Action,
        ProcessingError,
    >)
        requires
            old(self).wf(),
            old(self)@.position == Position::Skip(kind, depth),
            admits(old(self)@, token@),
        ensures
            final(self).wf(),
            agrees(step(old(self)@, token@), old(self)@, result, final(self)@),
    {
        if token.is_end_of(kind.name()) {
            if depth == 0 {
                self.position = Position::ChildLoop;
            } else {
                self.position = Position::Skip(kind, depth - 1);
            }
        } else {
            match token.expect_start_of(kind.name()) {
                Ok(_) => {
                    self.position = Position::Skip(kind, depth + 1);
                },
                Err(_) => {},
            }
        }
        Ok(Action::Continue)
    }

    /// Reads around the releases: the start tag of the root and a line feed
    /// before them, the start tag of each release with its attributes, and
    /// after the end tag of the root, which closes the writer, a line feed
    /// and the end of the input.
    pub fn parse_document(&mut self, token: &Token) -> (result: Result<Action, ProcessingError>)
        requires
            old(self).wf(),
            old(self)@.position is Root || old(self)@.position is RootNewline || old(self)@.position is AwaitRecordOrEnd || old(self)@.position is TrailerNewline || old(self)@.position is TrailerEof,
            admits(old(self)@, token@),
        ensures
            final(self).wf(),
            agrees(step(old(self)@, token@), old(self)@, result, final(self)@),
    {
        match self.position {
            Position::Root => match token.expect_start_of("releases") {
                Ok(_) => {
                    self.position = Position::RootNewline;
                    Ok(Action::Continue)
                },
                Err(error) => Err(error),
            },
            Position::RootNewline => match token.expect_new_line() {
                Ok(()) => {
                    self.position = Position::AwaitRecordOrEnd;
                    Ok(Action::Continue)
                },
                Err(error) => Err(error),
            },
            Position::AwaitRecordOrEnd => {
                if token.is_end_of("releases") {
                    let flushed = self.writer.flush();
                    self.position = Position::TrailerNewline;
                    return Ok(Action::Finished(flushed));
                }
                match token.expect_start_of("release") {
                    Ok(tag) => match parse_release_attributes(tag, &mut self.writer) {
                        Ok(()) => {
                            self.position = Position::ChildLoop;
                            Ok(Action::Continue)
                        },
                        Err(error) => Err(error),
                    },
                    Err(error) => Err(error),
                }
            },
            Position::TrailerNewline => match token.expect_new_line() {
                Ok(()) => {
                    self.position = Position::TrailerEof;
                    Ok(Action::Continue)
                },
                Err(error) => Err(error),
            },
            _ => match token.expect_eof() {
                Ok(()) => {
                    self.position = Position::Done;
                    Ok(Action::Done)
                },
                Err(error) => Err(error),
            },
        }
    }

    /// Whether `text` can be written to `slot`.
    fn takes(&self, slot: TextSlot, text: &Vec<u8>) -> (taken: bool)
        requires
            self.wf(),
        ensures
            taken == self@.writer.takes(slot, text@),
    {
        as_text(text.as_slice()).is_some() && self.writer.fits(slot, text.len())
    }

    /// Whether a label with these attributes can be written.
    fn label_accepted(&self, tag: &Tag) -> (accepted: bool)
        requires
            self.wf(),
        ensures
            accepted == label_admits(self@.writer, tag@),
    {
        let id = match find_only(&tag.attributes, label_attribute(LabelField::Id)) {
            Some(id) => self.takes(TextSlot::Label(LabelField::Id), id),
            None => false,
        };
        let cat_no = match find_only(&tag.attributes, label_attribute(LabelField::CatNo)) {
            Some(cat_no) => self.takes(TextSlot::Label(LabelField::CatNo), cat_no),
            None => false,
        };
        let name = match find_only(&tag.attributes, label_attribute(LabelField::Name)) {
            Some(name) => self.takes(TextSlot::Label(LabelField::Name), name),
            None => false,
        };
        id && cat_no && name && self.writer.label_fits()
    }

    /// Whether `token` is admitted where the dispatcher stands. A token that
    /// is not admitted must not be fed: no conversion can go on from it.
    pub fn accepts(&self, token: &Token) -> (accepted: bool)
        requires
            self.wf(),
        ensures
            accepted == admits(self@, token@),
    {
        match self.position {
            Position::AwaitRecordOrEnd => {
                if token.is_end_of("releases") {
                    true
                } else {
                    match token.expect_start_of("release") {
                        Ok(tag) => release_accepted(tag),
                        Err(_) => true,
                    }
                }
            },
            Position::ChildLoop => {
                if token.is_end_of("release") {
                    self.writer.release_marks().title
                } else {
                    match token {
                        Token::Start(tag) => match read_child(&tag.name) {
                            Some(Child::Title) => !self.writer.release_marks().title,
                            Some(_) => true,
                            None => false,
                        },
                        _ => true,
                    }
                }
            },
            Position::Title => match token {
                Token::Text(content) => self.takes(TextSlot::Title, content),
                _ => true,
            },
            Position::ListText(kind) => match token {
                Token::Text(content) => {
                    let slot = match kind {
                        ListKind::Genres => TextSlot::Genre,
                        ListKind::Styles => TextSlot::Style,
                    };
                    let plain = unescape(content.as_slice());
                    as_text(content.as_slice()).is_some() && self.writer.fits(slot, plain.len())
                },
                _ => true,
            },
            Position::Label => {
                if token.is_end_of("labels") {
                    true
                } else {
                    match token.expect_empty("label") {
                        Ok(tag) => self.label_accepted(tag),
                        Err(_) => true,
                    }
                }
            },
            Position::Artist => {
                if token.is_end_of("artist") {
                    let marks = self.writer.artist_marks();
                    marks.id && marks.name && marks.anv && marks.join && self.writer.artist_fits()
                } else {
                    match token {
                        Token::Start(tag) => match read_artist_child(&tag.name) {
                            Some(ArtistChild::Member(field)) => {
                                let marks = self.writer.artist_marks();
                                match field {
                                    ArtistField::Id => !marks.id,
                                    ArtistField::Name => !marks.name,
                                    ArtistField::Anv => !marks.anv,
                                    ArtistField::Join => !marks.join,
                                }
                            },
                            Some(ArtistChild::Note(_)) => true,
                            None => false,
                        },
                        _ => true,
                    }
                }
            },
            Position::ArtistText(field) => match token {
                Token::Text(content) => self.takes(TextSlot::Artist(field), content),
                _ => true,
            },
            Position::Skip(kind, depth) => match token {
                Token::Eof => false,
                _ => match token.expect_start_of(kind.name()) {
                    Ok(_) => depth < u64::MAX,
                    Err(_) => true,
                },
            },
            Position::Done => false,
            _ => true,
        }
    }

    /// Takes the next token of the document: checks it against the grammar,
    /// writes what it carries, and says what the caller is to do.
    pub fn feed(&mut self, token: &Token) -> (result: Result<Action, ProcessingError>)
        requires
            old(self).wf(),
            admits(old(self)@, token@),
        ensures
            final(self).wf(),
            agrees(step(old(self)@, token@), old(self)@, result, final(self)@),
    {
        match self.position {
            Position::Root | Position::RootNewline | Position::AwaitRecordOrEnd
            | Position::TrailerNewline | Position::TrailerEof | Position::Done => {
                self.parse_document(token)
            },
            Position::ChildLoop | Position::RecordClosed => self.parse_release(token),
            Position::Title | Position::TitleEnd => self.parse_title(token),
            Position::ListItem(kind) | Position::ListText(kind) | Position::ListItemEnd(
                kind,
            ) => match kind {
                ListKind::Genres => self.parse_genres(token),
                ListKind::Styles => self.parse_styles(token),
            },
            Position::Label => self.parse_labels(token),
            Position::Image => self.parse_images(token),
            Position::Artists => self.parse_artists(token),
            Position::Artist | Position::ArtistText(_) | Position::ArtistMemberEnd(_)
            | Position::ArtistNote(_) => self.parse_artist(token),
            Position::Skip(kind, depth) => self.parse_ignored(kind, depth, token),
        }
    }

    /// Takes the next token of the document if it is admitted, as `feed`
    /// does; leaves the dispatcher as it is and returns `None` if it is not.
    pub fn try_feed(&mut self, token: &Token) -> (result: Option<Result<Action, ProcessingError>>)
        requires
            old(self).wf(),
        ensures
            final(self).wf(),
            admits(old(self)@, token@) ==> (result matches Some(fed) && agrees(
                step(old(self)@, token@),
                old(self)@,
                fed,
                final(self)@,
            )),
            !admits(old(self)@, token@) ==> result is None && final(self)@ == old(self)@,
    {
        if self.accepts(token) {
            Some(self.feed(token))
        } else {
            None
        }
    }
}

} // verus!
