use arrow::array::{Array, AsArray, RecordBatch};
use arrow::datatypes::{Int8Type, UInt32Type};
use discogs_parquet::columns::OFFSET_LIMIT;
use discogs_parquet::status::Status;
use discogs_parquet::writer::{
    ArtistField, LabelField, ReleaseBatchWriter, TextSlot, BATCH_SIZE,
};

fn write_plain_release(writer: &mut ReleaseBatchWriter, id: u32) -> Option<RecordBatch> {
    writer.push_id(id);
    writer.push_status(Status::Accepted);
    writer.push_title("title");
    writer.write_release().map(|batch| batch.inner)
}

fn ids(batch: &RecordBatch) -> Vec<u32> {
    batch.column(0).as_primitive::<UInt32Type>().values().to_vec()
}

fn statuses(batch: &RecordBatch) -> Vec<String> {
    let column = batch.column(1).as_dictionary::<Int8Type>();
    let words = column.values().as_string::<i32>();
    column.keys().iter().map(|key| words.value(key.unwrap() as usize).to_string()).collect()
}

#[test]
fn batch_size_is_ten_thousand() {
    assert_eq!(BATCH_SIZE, 10000);
}

#[test]
fn new_writer_holds_nothing() {
    let mut writer = ReleaseBatchWriter::new();
    assert_eq!(writer.pending(), 0);
    assert!(!writer.release_marks().id);
    assert!(!writer.release_marks().status);
    assert!(!writer.release_marks().title);
    assert!(writer.flush().is_none());
    assert!(writer.close().is_none());
}

#[test]
fn marks_follow_what_is_written() {
    let mut writer = ReleaseBatchWriter::new();
    writer.push_id(9);
    assert!(writer.release_marks().id && !writer.release_marks().title);
    writer.push_title("T");
    assert!(writer.release_marks().title && !writer.release_marks().status);
    writer.push_status(Status::Draft);
    assert!(writer.release_marks().status);
    writer.push_artist_name("N");
    let marks = writer.artist_marks();
    assert!(marks.name && !marks.id && !marks.anv && !marks.join);
    writer.push_artist_id("1");
    writer.push_artist_anv_null();
    writer.push_artist_join("&");
    let marks = writer.artist_marks();
    assert!(marks.name && marks.id && marks.anv && marks.join);
    writer.push_end_of_artist();
    let marks = writer.artist_marks();
    assert!(!marks.name && !marks.id && !marks.anv && !marks.join);
    writer.push_label_cat_no("C");
    let marks = writer.label_marks();
    assert!(marks.cat_no && !marks.id && !marks.name);
    writer.push_label_id("1");
    writer.push_label_name("L");
    writer.push_end_of_label();
    let marks = writer.label_marks();
    assert!(!marks.cat_no && !marks.id && !marks.name);
    assert!(writer.write_release().is_none());
    assert!(!writer.release_marks().id);
    assert_eq!(writer.pending(), 1);
}

#[test]
fn release_written_field_by_field_comes_out_as_one_row() {
    let mut writer = ReleaseBatchWriter::new();
    writer.push_id(42);
    writer.push_status(Status::Deleted);
    writer.push_title("Title");
    writer.push_genre("Rock");
    writer.push_genre("Pop");
    writer.push_style("Punk");
    writer.push_artist_id("7");
    writer.push_artist_name("Name");
    writer.push_artist_anv("Variation");
    writer.push_artist_join_null();
    writer.push_end_of_artist();
    writer.push_label_id("3");
    writer.push_label_cat_no("CAT 1");
    writer.push_label_name("Label");
    writer.push_end_of_label();
    assert!(writer.write_release().is_none());
    assert_eq!(writer.pending(), 1);
    let batch = writer.flush().unwrap().inner;
    assert_eq!(writer.pending(), 0);
    assert_eq!(batch.num_rows(), 1);
    assert_eq!(ids(&batch), vec![42]);
    assert_eq!(statuses(&batch), vec!["Deleted"]);
    assert_eq!(batch.column(2).as_string::<i32>().value(0), "Title");
    let artists = batch.column(3).as_list::<i32>().value(0);
    let artists = artists.as_struct();
    assert_eq!(artists.len(), 1);
    assert_eq!(artists.column(0).as_string::<i32>().value(0), "7");
    assert_eq!(artists.column(1).as_string::<i32>().value(0), "Name");
    assert_eq!(artists.column(2).as_string::<i32>().value(0), "Variation");
    assert!(artists.column(3).is_null(0));
    let genres = batch.column(4).as_list::<i32>().value(0);
    let genres: Vec<&str> = genres.as_string::<i32>().iter().map(|genre| genre.unwrap()).collect();
    assert_eq!(genres, vec!["Rock", "Pop"]);
    let styles = batch.column(5).as_list::<i32>().value(0);
    assert_eq!(styles.as_string::<i32>().value(0), "Punk");
    assert_eq!(styles.len(), 1);
    let labels = batch.column(6).as_list::<i32>().value(0);
    let labels = labels.as_struct();
    assert_eq!(labels.len(), 1);
    assert_eq!(labels.column(0).as_string::<i32>().value(0), "3");
    assert_eq!(labels.column(1).as_string::<i32>().value(0), "CAT 1");
    assert_eq!(labels.column(2).as_string::<i32>().value(0), "Label");
    assert!(writer.flush().is_none());
}

#[test]
fn lists_close_once_per_release_even_when_empty() {
    let mut writer = ReleaseBatchWriter::new();
    assert!(write_plain_release(&mut writer, 1).is_none());
    writer.push_genre("Only");
    assert!(write_plain_release(&mut writer, 2).is_none());
    assert!(write_plain_release(&mut writer, 3).is_none());
    let batch = writer.close().unwrap().inner;
    assert_eq!(batch.num_rows(), 3);
    for column in 3..7 {
        let lists = batch.column(column).as_list::<i32>();
        assert_eq!(lists.len(), 3);
        assert_eq!(lists.null_count(), 0);
        for row in 0..3 {
            let expected = if column == 4 && row == 1 { 1 } else { 0 };
            assert_eq!(lists.value(row).len(), expected);
        }
    }
}

#[test]
fn full_batch_is_flushed_by_the_release_that_fills_it() {
    let mut writer = ReleaseBatchWriter::new();
    for id in 1..BATCH_SIZE as u32 {
        assert!(write_plain_release(&mut writer, id).is_none());
        assert_eq!(writer.pending(), id as usize);
    }
    let batch = write_plain_release(&mut writer, BATCH_SIZE as u32).unwrap();
    assert_eq!(batch.num_rows(), BATCH_SIZE);
    for column in batch.columns() {
        assert_eq!(column.len(), BATCH_SIZE);
    }
    assert_eq!(ids(&batch), (1..=BATCH_SIZE as u32).collect::<Vec<u32>>());
    assert_eq!(writer.pending(), 0);
    assert!(writer.close().is_none());
}

#[test]
fn release_beyond_a_full_batch_waits_for_the_close() {
    let mut writer = ReleaseBatchWriter::new();
    let mut flushed = 0;
    for id in 0..=BATCH_SIZE as u32 {
        if let Some(batch) = write_plain_release(&mut writer, id) {
            flushed += 1;
            assert_eq!(batch.num_rows(), BATCH_SIZE);
        }
    }
    assert_eq!(flushed, 1);
    assert_eq!(writer.pending(), 1);
    let last = writer.close().unwrap().inner;
    assert_eq!(last.num_rows(), 1);
    assert_eq!(ids(&last), vec![BATCH_SIZE as u32]);
}

#[test]
fn statuses_are_coded_anew_in_every_batch() {
    let mut writer = ReleaseBatchWriter::new();
    for (id, status) in [(1, Status::Draft), (2, Status::Draft), (3, Status::Accepted)] {
        writer.push_id(id);
        writer.push_status(status);
        writer.push_title("t");
        assert!(writer.write_release().is_none());
    }
    let first = writer.flush().unwrap().inner;
    assert_eq!(statuses(&first), vec!["Draft", "Draft", "Accepted"]);
    for (id, status) in [(4, Status::Deleted), (5, Status::Draft)] {
        writer.push_id(id);
        writer.push_status(status);
        writer.push_title("t");
        assert!(writer.write_release().is_none());
    }
    let second = writer.flush().unwrap().inner;
    assert_eq!(statuses(&second), vec!["Deleted", "Draft"]);
    assert_eq!(ids(&second), vec![4, 5]);
}

#[test]
fn room_is_counted_in_bytes_per_column() {
    let mut writer = ReleaseBatchWriter::new();
    for slot in [
        TextSlot::Title,
        TextSlot::Genre,
        TextSlot::Style,
        TextSlot::Artist(ArtistField::Id),
        TextSlot::Artist(ArtistField::Join),
        TextSlot::Label(LabelField::CatNo),
    ] {
        assert!(writer.fits(slot, 0));
        assert!(writer.fits(slot, OFFSET_LIMIT));
        assert!(!writer.fits(slot, OFFSET_LIMIT + 1));
    }
    writer.push_title("abc");
    writer.push_genre("de");
    writer.push_style("f");
    writer.push_artist_name("ghij");
    writer.push_label_name("klmno");
    assert!(writer.fits(TextSlot::Title, OFFSET_LIMIT - 3));
    assert!(!writer.fits(TextSlot::Title, OFFSET_LIMIT - 2));
    assert!(writer.fits(TextSlot::Genre, OFFSET_LIMIT - 2));
    assert!(!writer.fits(TextSlot::Genre, OFFSET_LIMIT - 1));
    assert!(writer.fits(TextSlot::Style, OFFSET_LIMIT - 1));
    assert!(!writer.fits(TextSlot::Style, OFFSET_LIMIT));
    assert!(writer.fits(TextSlot::Artist(ArtistField::Name), OFFSET_LIMIT - 4));
    assert!(!writer.fits(TextSlot::Artist(ArtistField::Name), OFFSET_LIMIT - 3));
    assert!(writer.fits(TextSlot::Artist(ArtistField::Id), OFFSET_LIMIT));
    assert!(writer.fits(TextSlot::Label(LabelField::Name), OFFSET_LIMIT - 5));
    assert!(!writer.fits(TextSlot::Label(LabelField::Name), OFFSET_LIMIT - 4));
    assert!(writer.fits(TextSlot::Label(LabelField::Id), OFFSET_LIMIT));
    assert!(writer.artist_fits());
    assert!(writer.label_fits());
}

#[test]
fn flush_drops_what_no_release_has_closed() {
    let mut writer = ReleaseBatchWriter::new();
    writer.push_genre("kept");
    assert!(write_plain_release(&mut writer, 1).is_none());
    writer.push_genre("dropped");
    writer.push_artist_id("1");
    writer.push_artist_name("n");
    writer.push_artist_anv_null();
    writer.push_artist_join_null();
    writer.push_end_of_artist();
    let first = writer.flush().unwrap().inner;
    assert_eq!(first.num_rows(), 1);
    let genres = first.column(4).as_list::<i32>().value(0);
    assert_eq!(genres.len(), 1);
    assert_eq!(genres.as_string::<i32>().value(0), "kept");
    assert_eq!(first.column(3).as_list::<i32>().value(0).len(), 0);
    writer.push_genre("next");
    assert!(write_plain_release(&mut writer, 2).is_none());
    let second = writer.flush().unwrap().inner;
    assert_eq!(second.num_rows(), 1);
    let genres = second.column(4).as_list::<i32>().value(0);
    assert_eq!(genres.len(), 1);
    assert_eq!(genres.as_string::<i32>().value(0), "next");
    assert_eq!(second.column(3).as_list::<i32>().value(0).len(), 0);
}

#[test]
fn batches_of_a_writer_hold_every_release_once_and_in_order() {
    let count = 2 * BATCH_SIZE as u32 + 3;
    let mut writer = ReleaseBatchWriter::new();
    let mut batches = Vec::new();
    for id in 0..count {
        batches.extend(write_plain_release(&mut writer, id));
    }
    assert_eq!(batches.len(), 2);
    batches.extend(writer.close().map(|batch| batch.inner));
    assert_eq!(batches.len(), 3);
    let mut all = Vec::new();
    for batch in &batches {
        assert_eq!(batch.num_columns(), 7);
        for column in batch.columns() {
            assert_eq!(column.len(), batch.num_rows());
        }
        all.extend(ids(batch));
    }
    assert_eq!(all, (0..count).collect::<Vec<u32>>());
}

#[test]
fn batches_of_a_writer_carry_the_schema_of_a_release() {
    let mut writer = ReleaseBatchWriter::new();
    assert!(write_plain_release(&mut writer, 1).is_none());
    let batch = writer.flush().unwrap().inner;
    assert_eq!(batch.schema(), discogs_parquet::schema::release_schema());
    let names: Vec<&str> =
        batch.schema_ref().fields().iter().map(|field| field.name().as_str()).collect();
    assert_eq!(names, vec!["id", "status", "title", "artists", "genres", "styles", "labels"]);
}

#[test]
fn room_for_a_text_is_counted_by_its_bytes() {
    let mut writer = ReleaseBatchWriter::new();
    assert!(writer.fits_text(TextSlot::Title, ""));
    assert!(writer.fits_text(TextSlot::Title, "Ünïcödé"));
    assert!(writer.fits_text(TextSlot::Genre, "Rock"));
    writer.push_title("Ünïcödé");
    assert!(writer.fits(TextSlot::Title, OFFSET_LIMIT - "Ünïcödé".len()));
    assert!(!writer.fits(TextSlot::Title, OFFSET_LIMIT - "Ünïcödé".len() + 1));
    assert_eq!("Ünïcödé".len(), 11);
    assert!(writer.fits_text(TextSlot::Title, "more"));
}
