use arrow::array::{AsArray, RecordBatch};
use arrow::datatypes::UInt32Type;
use discogs_parquet::dispatcher::{Action, Dispatcher};
use discogs_parquet::machine::Position;
use discogs_parquet::token::{Attribute, Tag, Token};
use discogs_parquet::writer::BATCH_SIZE;

fn start(name: &str) -> Token {
    Token::Start(Tag { name: name.as_bytes().to_vec(), attributes: Vec::new() })
}

fn end(name: &str) -> Token {
    Token::End(name.as_bytes().to_vec())
}

fn text(content: &str) -> Token {
    Token::Text(content.as_bytes().to_vec())
}

fn release(id: usize) -> Vec<Token> {
    vec![
        Token::Start(Tag {
            name: b"release".to_vec(),
            attributes: vec![
                Attribute { key: b"id".to_vec(), value: id.to_string().into_bytes() },
                Attribute { key: b"status".to_vec(), value: b"Accepted".to_vec() },
            ],
        }),
        start("title"),
        text("t"),
        end("title"),
        end("release"),
        text("\n"),
    ]
}

struct Log {
    flushes: Vec<(usize, RecordBatch)>,
    last: Option<RecordBatch>,
    released: usize,
}

fn feed_releases(count: usize) -> Log {
    let mut dispatcher = Dispatcher::new();
    let mut log = Log { flushes: Vec::new(), last: None, released: 0 };
    for token in [start("releases"), text("\n")] {
        assert!(dispatcher.accepts(&token));
        assert!(matches!(dispatcher.feed(&token), Ok(Action::Continue)));
    }
    for id in 1..=count {
        for token in release(id) {
            assert!(dispatcher.accepts(&token));
            match dispatcher.feed(&token).unwrap() {
                Action::Continue => {}
                Action::Released(batch) => {
                    log.released += 1;
                    log.flushes.extend(batch.map(|batch| (id, batch.inner)));
                    assert_eq!(dispatcher.pending(), id % BATCH_SIZE);
                    assert_eq!(dispatcher.position(), Position::AwaitRecordOrEnd);
                }
                other => panic!("unexpected {other:?}"),
            }
        }
    }
    assert_eq!(dispatcher.pending(), count % BATCH_SIZE);
    match dispatcher.feed(&end("releases")).unwrap() {
        Action::Finished(batch) => log.last = batch.map(|batch| batch.inner),
        other => panic!("unexpected {other:?}"),
    }
    assert_eq!(dispatcher.pending(), 0);
    assert!(matches!(dispatcher.feed(&text("\n")), Ok(Action::Continue)));
    assert!(matches!(dispatcher.feed(&Token::Eof), Ok(Action::Done)));
    assert!(dispatcher.is_done());
    log
}

fn ids(batch: &RecordBatch) -> Vec<u32> {
    batch.column(0).as_primitive::<UInt32Type>().values().to_vec()
}

#[test]
fn exactly_one_batch_of_releases_flushes_once_and_leaves_nothing() {
    let log = feed_releases(BATCH_SIZE);
    assert_eq!(log.released, BATCH_SIZE);
    assert_eq!(log.flushes.len(), 1);
    assert_eq!(log.flushes[0].0, BATCH_SIZE);
    assert_eq!(log.flushes[0].1.num_rows(), BATCH_SIZE);
    assert!(log.last.is_none());
}

#[test]
fn one_release_more_is_pending_until_the_end() {
    let log = feed_releases(BATCH_SIZE + 1);
    assert_eq!(log.released, BATCH_SIZE + 1);
    assert_eq!(log.flushes.len(), 1);
    assert_eq!(log.flushes[0].0, BATCH_SIZE);
    assert_eq!(log.flushes[0].1.num_rows(), BATCH_SIZE);
    let last = log.last.unwrap();
    assert_eq!(last.num_rows(), 1);
    assert_eq!(ids(&last), vec![BATCH_SIZE as u32 + 1]);
}

#[test]
fn one_release_less_is_flushed_at_the_end_only() {
    let log = feed_releases(BATCH_SIZE - 1);
    assert!(log.flushes.is_empty());
    assert_eq!(log.last.unwrap().num_rows(), BATCH_SIZE - 1);
}

#[test]
fn rows_of_all_batches_are_the_releases_in_order() {
    let count = 2 * BATCH_SIZE + 17;
    let log = feed_releases(count);
    assert_eq!(log.flushes.len(), 2);
    let mut all = Vec::new();
    for (_, batch) in &log.flushes {
        for column in batch.columns() {
            assert_eq!(column.len(), BATCH_SIZE);
        }
        all.extend(ids(batch));
    }
    let last = log.last.unwrap();
    for column in last.columns() {
        assert_eq!(column.len(), 17);
    }
    all.extend(ids(&last));
    assert_eq!(all, (1..=count as u32).collect::<Vec<u32>>());
}
