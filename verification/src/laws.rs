//! What holds of every conversion: the columns stay aligned row by row, the
//! batches are cut at a fixed cadence, and every release that is closed ends
//! up as one row of one batch.
use vstd::prelude::*;
use vstd::string::*;
use vstd::utf8::*;

use crate::error::ProcessingError;
use crate::grammar::{
    artist_child_of, artist_tag, child_of, only_value, ArtistChild, Child, Ignored, ListKind,
};
use crate::machine::{
    admits, label_value, release_admits, step, with_attributes, DispatcherView, Position,
};
use crate::status::{lemma_status_round_trip, status_of, Status};
use crate::text::{id_value, unescaped};
use crate::token::{name_bytes, TagView, TokenView};
use crate::writer::{
    lemma_closes_aligned, lemma_writes_aligned, vocabulary, ArtistField, Columns, LabelField,
    ReleaseMarks, WriterView, BATCH_SIZE,
};

verus! {

/// Whenever the writer is at rest, the seven columns that a flush cuts hold
/// one row per pending release, each of them.
pub proof fn lemma_batch_rows(writer: WriterView)
    requires
        writer.aligned(),
        writer.at_rest(),
    ensures
        writer.columns.cells().len() == 7,
        forall|column: int|
            0 <= column < 7 ==> (#[trigger] writer.columns.cells()[column]).len() == writer.pending,
{
}

/// The invariants across a step around the releases.
proof fn lemma_document_step_sound(state: DispatcherView, token: TokenView)
    requires
        state.sound(),
        admits(state, token),
        state.position is Root || state.position is RootNewline || state.position
            is AwaitRecordOrEnd || state.position is RecordClosed || state.position
            is TrailerNewline || state.position is TrailerEof,
    ensures
        step(state, token).next.sound(),
{
    lemma_closes_aligned(state.writer);
    match state.position {
        Position::AwaitRecordOrEnd => {
            if !token.is_end_of("releases") && token.is_start_of("release") {
                let tag = token->Start_0;
                match with_attributes(state.writer, tag) {
                    Some(written) => {
                        let id = id_value(only_value(tag.attributes, name_bytes("id"))->Some_0)->Some_0;
                        lemma_writes_aligned(state.writer);
                        lemma_writes_aligned(state.writer.with_id(id));
                    },
                    None => {},
                }
            }
        },
        Position::RecordClosed => {
            if token.is_new_line() {
                lemma_closes_aligned(state.writer.with_release());
            }
        },
        _ => {},
    }
}

/// The invariants across a step between or inside the plain children of a
/// release.
proof fn lemma_release_step_sound(state: DispatcherView, token: TokenView)
    requires
        state.sound(),
        admits(state, token),
        state.position is ChildLoop || state.position is Title || state.position is TitleEnd
            || state.position is ListItem || state.position is ListText || state.position
            is ListItemEnd || state.position is Image || state.position is Artists
            || state.position is Skip,
    ensures
        step(state, token).next.sound(),
{
    lemma_writes_aligned(state.writer);
}

/// The invariants across a step between the labels of a release.
proof fn lemma_label_step_sound(state: DispatcherView, token: TokenView)
    requires
        state.sound(),
        admits(state, token),
        state.position is Label,
    ensures
        step(state, token).next.sound(),
{
    if !token.is_end_of("labels") && token.is_empty_of("label") {
        let tag = token->Empty_0;
        let first = state.writer.with_label_entry(
            LabelField::Id,
            label_value(tag, LabelField::Id)->Some_0,
        );
        let second = first.with_label_entry(
            LabelField::CatNo,
            label_value(tag, LabelField::CatNo)->Some_0,
        );
        let third = second.with_label_entry(
            LabelField::Name,
            label_value(tag, LabelField::Name)->Some_0,
        );
        lemma_writes_aligned(state.writer);
        lemma_writes_aligned(first);
        lemma_writes_aligned(second);
        lemma_closes_aligned(third);
    }
}

/// The invariants across a step inside an artist.
proof fn lemma_artist_step_sound(state: DispatcherView, token: TokenView)
    requires
        state.sound(),
        admits(state, token),
        state.position is Artist || state.position is ArtistText || state.position
            is ArtistMemberEnd || state.position is ArtistNote,
    ensures
        step(state, token).next.sound(),
{
    lemma_writes_aligned(state.writer);
    lemma_closes_aligned(state.writer);
}

/// Every step keeps the invariants: whatever token is admitted, and whether
/// the step succeeds or fails, the columns are aligned afterwards and every
/// release closed so far is pending or a row of a batch.
pub proof fn lemma_step_sound(state: DispatcherView, token: TokenView)
    requires
        state.sound(),
        admits(state, token),
    ensures
        step(state, token).next.sound(),
{
    match state.position {
        Position::Root | Position::RootNewline | Position::AwaitRecordOrEnd
        | Position::RecordClosed | Position::TrailerNewline | Position::TrailerEof => {
            lemma_document_step_sound(state, token);
        },
        Position::Label => {
            lemma_label_step_sound(state, token);
        },
        Position::Artist | Position::ArtistText(_) | Position::ArtistMemberEnd(_)
        | Position::ArtistNote(_) => {
            lemma_artist_step_sound(state, token);
        },
        Position::Done => {},
        _ => {
            lemma_release_step_sound(state, token);
        },
    }
}

/// Over a whole conversion: once the input has ended where it should, nothing
/// is pending and the batches cut hold as many rows as releases were closed.
pub proof fn lemma_rows_equal_releases(state: DispatcherView)
    requires
        state.sound(),
        state.position is Done,
    ensures
        state.writer.pending == 0,
        state.writer.handed == state.writer.released,
{
}

/// While releases are read, the rows cut so far make full batches only, as
/// many as the releases closed so far fill, and the releases beyond them are
/// pending.
pub proof fn lemma_batch_cadence(state: DispatcherView)
    requires
        state.sound(),
        !(state.position is TrailerNewline || state.position is TrailerEof || state.position
            is Done),
    ensures
        state.writer.pending == state.writer.released % (BATCH_SIZE as nat),
        state.writer.handed == (BATCH_SIZE as nat) * (state.writer.released / (BATCH_SIZE as nat)),
{
    let size = BATCH_SIZE as nat;
    assert(state.writer.handed % size == 0);
    assert(state.writer.released == state.writer.handed + state.writer.pending);
    assert(state.writer.handed == size * (state.writer.handed / size)) by (nonlinear_arith)
        requires
            state.writer.handed % size == 0,
            size > 0,
    ;
    let batches = state.writer.handed / size;
    assert(state.writer.released / size == batches && state.writer.released % size == state.writer.pending)
        by (nonlinear_arith)
        requires
            state.writer.released == size * batches + state.writer.pending,
            state.writer.pending < size,
            size > 0,
    ;
}

/// The release that fills a batch is the one that triggers the flush: after
/// a release is closed, either fewer releases are pending than make a batch
/// and nothing was cut, or a full batch was cut and nothing is pending.
pub proof fn lemma_batch_boundary(writer: WriterView)
    requires
        writer.pending < BATCH_SIZE,
    ensures
        writer.pending + 1 < BATCH_SIZE ==> writer.after_release() == writer.with_release()
            && writer.after_release().pending == writer.pending + 1,
        writer.pending + 1 == BATCH_SIZE ==> writer.after_release()
            == writer.with_release().flushed() && writer.after_release().pending == 0
            && writer.with_release().pending == BATCH_SIZE,
{
}

/// The state after `tokens` are fed one by one, each from where the one
/// before it led.
pub open spec fn run(state: DispatcherView, tokens: Seq<TokenView>) -> DispatcherView
    decreases tokens.len(),
{
    if tokens.len() == 0 {
        state
    } else {
        run(step(state, tokens[0]).next, tokens.drop_first())
    }
}

/// Whether every token of `tokens` is admitted where the ones before it
/// lead.
pub open spec fn all_admitted(state: DispatcherView, tokens: Seq<TokenView>) -> bool
    decreases tokens.len(),
{
    tokens.len() == 0 || (admits(state, tokens[0]) && all_admitted(
        step(state, tokens[0]).next,
        tokens.drop_first(),
    ))
}

/// Whether `tokens` are the rest of an ignored element, read from below
/// `depth` more start tags of its name: they hold no end of input, every end
/// tag of that name closes the start tag of that name last opened, and the
/// one that closes the element itself is the last token.
pub open spec fn rest_of_ignored(kind: Ignored, depth: nat, tokens: Seq<TokenView>) -> bool
    decreases tokens.len(),
{
    &&& tokens.len() > 0
    &&& !(tokens[0] is Eof)
    &&& if tokens[0].is_end_of(kind.tag()) {
        if depth == 0 {
            tokens.len() == 1
        } else {
            rest_of_ignored(kind, (depth - 1) as nat, tokens.drop_first())
        }
    } else if tokens[0].is_start_of(kind.tag()) {
        depth < u64::MAX && rest_of_ignored(kind, depth + 1, tokens.drop_first())
    } else {
        rest_of_ignored(kind, depth, tokens.drop_first())
    }
}

/// Inside an ignored element: whatever the element holds, elements of its own
/// name at any depth included, the dispatcher admits all of it, stops at the
/// end tag that closes the element, and stands between the children of the
/// release again, with nothing written.
pub proof fn lemma_ignored_is_skipped(
    state: DispatcherView,
    kind: Ignored,
    depth: u64,
    tokens: Seq<TokenView>,
)
    requires
        state.position == Position::Skip(kind, depth),
        rest_of_ignored(kind, depth as nat, tokens),
    ensures
        all_admitted(state, tokens),
        run(state, tokens) == (DispatcherView { position: Position::ChildLoop, ..state }),
    decreases tokens.len(),
{
    let first = tokens[0];
    let next = step(state, first).next;
    let rest = tokens.drop_first();
    if first.is_end_of(kind.tag()) {
        if depth == 0 {
            assert(rest.len() == 0);
            assert(run(next, rest) == next);
        } else {
            lemma_ignored_is_skipped(next, kind, (depth - 1) as u64, rest);
        }
    } else if first.is_start_of(kind.tag()) {
        lemma_ignored_is_skipped(next, kind, (depth + 1) as u64, rest);
    } else {
        lemma_ignored_is_skipped(next, kind, depth, rest);
    }
}

/// Seen from the release: an ignored child, from its start tag to the end tag
/// that closes it, leaves the dispatcher where it was: between the children of
/// the release, ready for the next one, with nothing written.
pub proof fn lemma_ignored_child_is_skipped(
    state: DispatcherView,
    kind: Ignored,
    tag: TagView,
    tokens: Seq<TokenView>,
)
    requires
        state.position is ChildLoop,
        child_of(tag.name) == Some(Child::Ignored(kind)),
        rest_of_ignored(kind, 0, tokens),
    ensures
        all_admitted(state, seq![TokenView::Start(tag)] + tokens),
        run(state, seq![TokenView::Start(tag)] + tokens) == state,
{
    let all = seq![TokenView::Start(tag)] + tokens;
    let inside = DispatcherView { position: Position::Skip(kind, 0), ..state };
    assert(all[0] == TokenView::Start(tag));
    assert(all.drop_first() =~= tokens);
    assert(step(state, all[0]).next == inside);
    lemma_ignored_is_skipped(inside, kind, 0, tokens);
}

/// The names of the members that may be null are read as these members.
proof fn lemma_nullable_names()
    ensures
        artist_child_of(name_bytes("anv")) == Some(ArtistChild::Member(ArtistField::Anv)),
        artist_child_of(name_bytes("join")) == Some(ArtistChild::Member(ArtistField::Join)),
{
    reveal_strlit("id");
    reveal_strlit("name");
    reveal_strlit("anv");
    reveal_strlit("join");
    is_ascii_spec_bytes("id");
    is_ascii_spec_bytes("name");
    is_ascii_spec_bytes("anv");
    is_ascii_spec_bytes("join");
    assert(name_bytes("id").len() == 2);
    assert(name_bytes("anv").len() == 3);
    assert(name_bytes("name")[0] == 110u8);
    assert(name_bytes("join")[0] == 106u8);
}

/// An artist's name variation or join phrase whose element is there and holds
/// nothing is written as a null, not as an empty string: the start tag and the
/// end tag are admitted one after the other, and the dispatcher then stands
/// inside the artist again, the null written.
pub proof fn lemma_empty_member_is_null(state: DispatcherView, field: ArtistField, tag: TagView)
    requires
        state.position is Artist,
        field.nullable(),
        !state.writer.artist.has(field),
        tag.name == name_bytes(artist_tag(field)),
    ensures
        admits(state, TokenView::Start(tag)),
        admits(step(state, TokenView::Start(tag)).next, TokenView::End(tag.name)),
        step(step(state, TokenView::Start(tag)).next, TokenView::End(tag.name)).next
            == (DispatcherView {
            writer: state.writer.with_artist_entry(field, None),
            ..state
        }),
{
    lemma_nullable_names();
    let inside = DispatcherView { position: Position::ArtistText(field), ..state };
    assert(step(state, TokenView::Start(tag)).next == inside);
}

/// An item of a list of strings is written with every `&amp;` replaced by `&`:
/// its start tag, its text and its end tag are admitted one after the other,
/// and the dispatcher then stands between the items again, the unescaped text
/// written.
pub proof fn lemma_item_is_unescaped(
    state: DispatcherView,
    kind: ListKind,
    tag: TagView,
    content: Seq<u8>,
)
    requires
        state.position == Position::ListItem(kind),
        tag.name == name_bytes(kind.item_tag()),
        valid_utf8(content),
        state.writer.fits(kind.slot(), unescaped(content).len()),
    ensures
        ({
            let start = step(state, TokenView::Start(tag)).next;
            let text = step(start, TokenView::Text(content)).next;
            let end = step(text, TokenView::End(tag.name)).next;
            &&& admits(state, TokenView::Start(tag))
            &&& admits(start, TokenView::Text(content))
            &&& admits(text, TokenView::End(tag.name))
            &&& end == (DispatcherView {
                writer: state.writer.with_item(kind, unescaped(content)),
                ..state
            })
        }),
{
    let start = DispatcherView { position: Position::ListText(kind), ..state };
    assert(step(state, TokenView::Start(tag)).next == start);
    let text = DispatcherView {
        position: Position::ListItemEnd(kind),
        writer: state.writer.with_item(kind, unescaped(content)),
        ..state
    };
    assert(step(start, TokenView::Text(content)).next == text);
}

/// A release whose status is one of the three words is taken, and its
/// identifier and status are written; a release whose status is anything else
/// is refused with `UnknownStatus`, and nothing is written.
pub proof fn lemma_status_policy(state: DispatcherView, tag: TagView)
    requires
        state.position is AwaitRecordOrEnd,
        tag.name == name_bytes("release"),
        release_admits(tag),
    ensures
        ({
            let id = id_value(only_value(tag.attributes, name_bytes("id"))->Some_0)->Some_0;
            let outcome = step(state, TokenView::Start(tag));
            match status_of(only_value(tag.attributes, name_bytes("status"))->Some_0) {
                Some(status) => outcome == state.write(
                    state.writer.with_id(id).with_status(status),
                    Position::ChildLoop,
                ),
                None => outcome == state.fail(ProcessingError::UnknownStatus),
            }
        }),
{
}

/// On the writer alone: writing fields, items and members leaves the counts
/// as they are; every release that is closed is counted once, and stays
/// pending unless it fills the batch, which is then cut whole.
pub proof fn lemma_release_is_counted(writer: WriterView)
    requires
        writer.counted(),
        writer.pending < BATCH_SIZE,
    ensures
        writer.after_release().released == writer.released + 1,
        writer.after_release().counted(),
        writer.after_release().pending < BATCH_SIZE,
        writer.pending + 1 < BATCH_SIZE ==> writer.after_release().pending == writer.pending + 1
            && writer.after_release().handed == writer.handed,
        writer.pending + 1 == BATCH_SIZE ==> writer.after_release().pending == 0
            && writer.after_release().handed == writer.handed + BATCH_SIZE,
{
}

/// On the writer alone: when the writer is closed, the last batch holds the
/// releases still pending, one row each in every one of its seven columns,
/// and with it the batches cut since the writer was made hold exactly as
/// many rows as releases were closed since then.
pub proof fn lemma_close_hands_out_the_rest(writer: WriterView)
    requires
        writer.aligned(),
        writer.counted(),
        writer.at_rest(),
    ensures
        writer.after_close().pending == 0,
        writer.after_close().handed == writer.released,
        writer.after_close().released == writer.released,
        forall|column: int|
            0 <= column < 7 ==> (#[trigger] writer.columns.cells()[column]).len() == writer.pending,
{
    lemma_batch_rows(writer);
}

/// The attributes of a release are written once each: the identifier column
/// gains the number that the `id` attribute spells, the status column gains
/// the word that the `status` attribute holds, which is a word of the
/// vocabulary and is in the dictionary from then on, both are marked, and
/// nothing else changes.
pub proof fn lemma_attributes_are_written(writer: WriterView, tag: TagView)
    requires
        release_admits(tag),
        with_attributes(writer, tag) is Some,
    ensures
        ({
            let id = id_value(only_value(tag.attributes, name_bytes("id"))->Some_0)->Some_0;
            let word = only_value(tag.attributes, name_bytes("status"))->Some_0;
            let written = with_attributes(writer, tag)->Some_0;
            &&& written == (WriterView {
                columns: Columns {
                    ids: writer.columns.ids.push(id),
                    statuses: writer.columns.statuses.push(word),
                    ..writer.columns
                },
                words: writer.words.insert(word),
                release: ReleaseMarks { id: true, status: true, ..writer.release },
                ..writer
            })
            &&& vocabulary().contains(word)
            &&& written.columns.ids.len() == writer.columns.ids.len() + 1
            &&& written.columns.statuses.len() == writer.columns.statuses.len() + 1
        }),
{
}

/// A status is written as its word: the status column gains one entry,
/// which reads back as the status; the entries before it stay as they were,
/// the release is marked, and nothing else changes but the dictionary, which
/// holds the word from then on and still no word outside the vocabulary.
pub proof fn lemma_status_is_written(writer: WriterView, status: Status)
    ensures
        ({
            let written = writer.with_status(status);
            &&& written == (WriterView {
                columns: Columns {
                    statuses: writer.columns.statuses.push(status.bytes()),
                    ..writer.columns
                },
                words: writer.words.insert(status.bytes()),
                release: ReleaseMarks { status: true, ..writer.release },
                ..writer
            })
            &&& writer.declared() ==> written.declared()
            &&& written.columns.statuses.len() == writer.columns.statuses.len() + 1
            &&& status_of(written.columns.statuses.last()) == Some(status)
            &&& written.columns.statuses.subrange(0, writer.columns.statuses.len() as int)
                == writer.columns.statuses
        }),
{
    lemma_status_round_trip(status);
    let written = writer.with_status(status);
    assert(written.columns.statuses.subrange(0, writer.columns.statuses.len() as int)
        =~= writer.columns.statuses);
}

/// A release holds exactly one title, one identifier and one status. Where
/// the end tag of a release is admitted, the three scalar columns hold one
/// entry more than there are closed releases, no list of the release is
/// closed yet, and the end tag itself writes nothing.
pub proof fn lemma_release_ends_complete(state: DispatcherView, token: TokenView)
    requires
        state.sound(),
        state.position is ChildLoop,
        token.is_end_of("release"),
        admits(state, token),
    ensures
        state.writer.columns.ids.len() == state.writer.pending + 1,
        state.writer.columns.statuses.len() == state.writer.pending + 1,
        state.writer.columns.titles.len() == state.writer.pending + 1,
        state.writer.columns.artists.ends.len() == state.writer.pending,
        state.writer.columns.genres.ends.len() == state.writer.pending,
        state.writer.columns.styles.ends.len() == state.writer.pending,
        state.writer.columns.labels.ends.len() == state.writer.pending,
        step(state, token) == state.go(Position::RecordClosed),
{
}

/// The line feed after a release closes the record: every list column
/// closes one list, one more release is pending, and all seven columns hold
/// one row per pending release again, until the batch is cut where it is
/// full.
pub proof fn lemma_line_feed_closes_release(state: DispatcherView, token: TokenView)
    requires
        state.sound(),
        state.position is RecordClosed,
        token.is_new_line(),
    ensures
        ({
            let closed = state.writer.with_release();
            &&& step(state, token).next.writer == state.writer.after_release()
            &&& closed.pending == state.writer.pending + 1
            &&& closed.aligned() && closed.at_rest()
            &&& forall|column: int|
                0 <= column < 7 ==> (#[trigger] closed.columns.cells()[column]).len()
                    == closed.pending
        }),
{
    lemma_closes_aligned(state.writer);
    lemma_batch_rows(state.writer.with_release());
}

/// Every step keeps what the writer declares: the schema and the members of
/// the records never change, and the dictionary of the status column never
/// holds a word outside the vocabulary.
pub proof fn lemma_step_declared(state: DispatcherView, token: TokenView)
    requires
        state.writer.declared(),
    ensures
        step(state, token).next.writer.declared(),
        step(state, token).next.writer.fields == state.writer.fields,
        step(state, token).next.writer.artist_fields == state.writer.artist_fields,
        step(state, token).next.writer.label_fields == state.writer.label_fields,
{
    match state.position {
        Position::AwaitRecordOrEnd => {
            if !token.is_end_of("releases") && token.is_start_of("release") {
                match status_of(only_value((token->Start_0).attributes, name_bytes("status"))->Some_0) {
                    Some(status) => {
                        lemma_status_round_trip(status);
                    },
                    None => {},
                }
            }
        },
        _ => {},
    }
}

} // verus!
