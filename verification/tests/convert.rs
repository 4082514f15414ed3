use arrow::array::{Array, AsArray, RecordBatch};
use arrow::datatypes::{DataType, Int8Type, UInt32Type};
use discogs_parquet::dispatcher::{Action, Dispatcher};
use discogs_parquet::error::ProcessingError;
use discogs_parquet::machine::Position;
use discogs_parquet::token::{Attribute, Tag, Token};
use quick_xml::events::{BytesStart, Event};
use quick_xml::reader::Reader;

fn tag_of(start: &BytesStart) -> Tag {
    Tag {
        name: start.name().into_inner().to_vec(),
        attributes: start
            .attributes()
            .filter_map(|attribute| attribute.ok())
            .map(|attribute| Attribute {
                key: attribute.key.into_inner().to_vec(),
                value: attribute.value.into_owned(),
            })
            .collect(),
    }
}

fn tokens_of(xml: &str) -> Vec<Token> {
    let mut reader = Reader::from_str(xml);
    let mut tokens = Vec::new();
    loop {
        let token = match reader.read_event().unwrap() {
            Event::Start(start) => Token::Start(tag_of(&start)),
            Event::End(end) => Token::End(end.name().into_inner().to_vec()),
            Event::Empty(start) => Token::Empty(tag_of(&start)),
            Event::Text(text) => Token::Text(text.into_inner().into_owned()),
            Event::Eof => Token::Eof,
            _ => Token::Other,
        };
        let last = token == Token::Eof;
        tokens.push(token);
        if last {
            return tokens;
        }
    }
}

#[derive(Debug)]
enum Stop {
    Refused(usize),
    Failed(usize, ProcessingError),
}

#[derive(Debug)]
struct Run {
    batches: Vec<RecordBatch>,
    released: usize,
    finished: bool,
    done: bool,
    position: Position,
}

fn run(tokens: &[Token]) -> Result<Run, Stop> {
    let mut dispatcher = Dispatcher::new();
    let mut run = Run {
        batches: Vec::new(),
        released: 0,
        finished: false,
        done: false,
        position: Position::Root,
    };
    for (at, token) in tokens.iter().enumerate() {
        if !dispatcher.accepts(token) {
            return Err(Stop::Refused(at));
        }
        match dispatcher.feed(token) {
            Ok(Action::Continue) => {}
            Ok(Action::Released(batch)) => {
                run.released += 1;
                run.batches.extend(batch.map(|batch| batch.inner));
            }
            Ok(Action::Finished(batch)) => {
                run.finished = true;
                run.batches.extend(batch.map(|batch| batch.inner));
            }
            Ok(Action::Done) => run.done = true,
            Err(error) => return Err(Stop::Failed(at, error)),
        }
    }
    run.position = dispatcher.position();
    Ok(run)
}

fn convert(xml: &str) -> Result<Run, Stop> {
    run(&tokens_of(xml))
}

fn failure(xml: &str) -> ProcessingError {
    match convert(xml) {
        Err(Stop::Failed(_, error)) => error,
        other => panic!("expected a failure, got {other:?}"),
    }
}

fn refused(xml: &str) -> bool {
    matches!(convert(xml), Err(Stop::Refused(_)))
}

fn document(releases: &str) -> String {
    format!("<releases>\n{releases}</releases>\n")
}

fn release(id: u32, body: &str) -> String {
    format!("<release id=\"{id}\" status=\"Accepted\">{body}</release>\n")
}

fn ids(batch: &RecordBatch) -> Vec<u32> {
    batch.column(0).as_primitive::<UInt32Type>().values().to_vec()
}

fn statuses(batch: &RecordBatch) -> Vec<String> {
    let column = batch.column(1).as_dictionary::<Int8Type>();
    let words = column.values().as_string::<i32>();
    column.keys().iter().map(|key| words.value(key.unwrap() as usize).to_string()).collect()
}

fn titles(batch: &RecordBatch) -> Vec<String> {
    batch.column(2).as_string::<i32>().iter().map(|title| title.unwrap().to_string()).collect()
}

fn text_lists(batch: &RecordBatch, column: usize) -> Vec<Vec<String>> {
    let lists = batch.column(column).as_list::<i32>();
    (0..lists.len())
        .map(|row| {
            let items = lists.value(row);
            items.as_string::<i32>().iter().map(|item| item.unwrap().to_string()).collect()
        })
        .collect()
}

fn record_lists(batch: &RecordBatch, column: usize) -> Vec<Vec<Vec<Option<String>>>> {
    let lists = batch.column(column).as_list::<i32>();
    (0..lists.len())
        .map(|row| {
            let records = lists.value(row);
            let records = records.as_struct();
            (0..records.len())
                .map(|at| {
                    (0..records.num_columns())
                        .map(|member| {
                            let entries = records.column(member).as_string::<i32>();
                            if entries.is_null(at) {
                                None
                            } else {
                                Some(entries.value(at).to_string())
                            }
                        })
                        .collect()
                })
                .collect()
        })
        .collect()
}

fn some(text: &str) -> Option<String> {
    Some(text.to_string())
}

const TWO_RELEASES: &str = "<releases>\n\
<release id=\"1\" status=\"Accepted\"><title>A</title><genres><genre>Rock</genre></genres>\
<artists><artist><id>10</id><name>X</name><anv></anv><join></join></artist></artists></release>\n\
<release id=\"2\" status=\"Draft\"><title>B</title><genres></genres><styles><style>Pop</style></styles>\
<labels><label id=\"100\" catno=\"C 1\" name=\"First\"/><label id=\"200\" catno=\"C 2\" name=\"Second\"/></labels></release>\n\
</releases>\n";

#[test]
fn two_releases_make_two_aligned_rows() {
    let run = convert(TWO_RELEASES).unwrap();
    assert!(run.finished && run.done);
    assert_eq!(run.released, 2);
    assert_eq!(run.position, Position::Done);
    assert_eq!(run.batches.len(), 1);
    let batch = &run.batches[0];
    assert_eq!(batch.num_rows(), 2);
    assert_eq!(batch.num_columns(), 7);
    for column in batch.columns() {
        assert_eq!(column.len(), 2);
    }
    assert_eq!(ids(batch), vec![1, 2]);
    assert_eq!(statuses(batch), vec!["Accepted", "Draft"]);
    assert_eq!(titles(batch), vec!["A", "B"]);
    assert_eq!(
        record_lists(batch, 3),
        vec![vec![vec![some("10"), some("X"), None, None]], vec![]]
    );
    assert_eq!(text_lists(batch, 4), vec![vec!["Rock".to_string()], vec![]]);
    assert_eq!(text_lists(batch, 5), vec![vec![], vec!["Pop".to_string()]]);
    assert_eq!(
        record_lists(batch, 6),
        vec![
            vec![],
            vec![
                vec![some("100"), some("C 1"), some("First")],
                vec![some("200"), some("C 2"), some("Second")]
            ]
        ]
    );
}

#[test]
fn batch_follows_the_declared_schema() {
    let run = convert(TWO_RELEASES).unwrap();
    let schema = run.batches[0].schema();
    let names: Vec<&str> = schema.fields().iter().map(|field| field.name().as_str()).collect();
    assert_eq!(names, vec!["id", "status", "title", "artists", "genres", "styles", "labels"]);
    assert!(schema.fields().iter().all(|field| !field.is_nullable()));
    assert_eq!(schema.field(0).data_type(), &DataType::UInt32);
    assert_eq!(
        schema.field(1).data_type(),
        &DataType::Dictionary(Box::new(DataType::Int8), Box::new(DataType::Utf8))
    );
    assert_eq!(schema.field(2).data_type(), &DataType::Utf8);
    match schema.field(3).data_type() {
        DataType::List(item) => match item.data_type() {
            DataType::Struct(members) => {
                let members: Vec<(&str, bool)> = members
                    .iter()
                    .map(|member| (member.name().as_str(), member.is_nullable()))
                    .collect();
                assert_eq!(
                    members,
                    vec![("id", false), ("name", false), ("anv", true), ("join", true)]
                );
            }
            other => panic!("artists hold {other:?}"),
        },
        other => panic!("artists are {other:?}"),
    }
    match schema.field(6).data_type() {
        DataType::List(item) => match item.data_type() {
            DataType::Struct(members) => {
                let members: Vec<(&str, bool)> = members
                    .iter()
                    .map(|member| (member.name().as_str(), member.is_nullable()))
                    .collect();
                assert_eq!(members, vec![("id", false), ("cat_no", false), ("name", false)]);
            }
            other => panic!("labels hold {other:?}"),
        },
        other => panic!("labels are {other:?}"),
    }
}

#[test]
fn empty_document_hands_out_no_batch() {
    let run = convert("<releases>\n</releases>\n").unwrap();
    assert!(run.finished && run.done);
    assert_eq!(run.released, 0);
    assert!(run.batches.is_empty());
}

#[test]
fn empty_name_variation_and_join_are_null() {
    let artist = "<artists><artist><id>1</id><name>N</name><anv></anv><join></join></artist>\
<artist><id>2</id><name>M</name><anv>V</anv><join>,</join></artist></artists>";
    let run = convert(&document(&release(5, &format!("<title>T</title>{artist}")))).unwrap();
    let batch = &run.batches[0];
    assert_eq!(
        record_lists(batch, 3),
        vec![vec![
            vec![some("1"), some("N"), None, None],
            vec![some("2"), some("M"), some("V"), some(",")]
        ]]
    );
    let artists = batch.column(3).as_list::<i32>().value(0);
    let artists = artists.as_struct();
    assert_eq!(artists.column(2).null_count(), 1);
    assert_eq!(artists.column(3).null_count(), 1);
    assert_eq!(artists.column(0).null_count(), 0);
    assert_eq!(artists.column(1).null_count(), 0);
}

#[test]
fn artist_members_come_in_any_order() {
    let artist = "<artists><artist><join>&amp;</join><role></role><name>N</name><tracks></tracks>\
<anv></anv><id>9</id></artist></artists>";
    let run = convert(&document(&release(5, &format!("{artist}<title>T</title>")))).unwrap();
    assert_eq!(
        record_lists(&run.batches[0], 3),
        vec![vec![vec![some("9"), some("N"), None, some("&amp;")]]]
    );
}

#[test]
fn genre_entity_is_unescaped() {
    let body = "<title>T</title><genres><genre>Electronic &amp; Dance</genre></genres>\
<styles><style>Drum &amp; Bass</style><style>R&amp;B &amp;amp;</style></styles>";
    let run = convert(&document(&release(1, body))).unwrap();
    let batch = &run.batches[0];
    assert_eq!(text_lists(batch, 4), vec![vec!["Electronic & Dance".to_string()]]);
    assert_eq!(text_lists(batch, 5), vec![vec!["Drum & Bass".to_string(), "R&B &amp;".to_string()]]);
}

#[test]
fn title_is_copied_verbatim() {
    let run = convert(&document(&release(1, "<title>Směs &amp; more</title>"))).unwrap();
    assert_eq!(titles(&run.batches[0]), vec!["Směs &amp; more"]);
}

#[test]
fn status_outside_the_vocabulary_is_rejected() {
    let xml = "<releases>\n<release id=\"1\" status=\"Pending\"><title>T</title></release>\n</releases>\n";
    match convert(xml) {
        Err(Stop::Failed(at, error)) => {
            assert_eq!(error, ProcessingError::UnknownStatus);
            assert_eq!(at, 2);
        }
        other => panic!("expected a failure, got {other:?}"),
    }
}

#[test]
fn status_vocabulary_is_accepted() {
    let xml = "<releases>\n\
<release id=\"1\" status=\"Deleted\"><title>A</title></release>\n\
<release id=\"2\" status=\"Accepted\"><title>B</title></release>\n\
<release id=\"3\" status=\"Draft\"><title>C</title></release>\n\
<release id=\"4\" status=\"Deleted\"><title>D</title></release>\n\
</releases>\n";
    let run = convert(xml).unwrap();
    assert_eq!(statuses(&run.batches[0]), vec!["Deleted", "Accepted", "Draft", "Deleted"]);
}

#[test]
fn unknown_release_attributes_are_passed_over() {
    let xml = "<releases>\n<release extra=\"x\" status=\"Draft\" id=\"77\" more=\"y\"><title>T</title></release>\n</releases>\n";
    let run = convert(xml).unwrap();
    assert_eq!(ids(&run.batches[0]), vec![77]);
    assert_eq!(statuses(&run.batches[0]), vec!["Draft"]);
}

#[test]
fn ignored_subtree_with_nested_same_name_is_skipped_whole() {
    let body = "<notes>outer<notes>inner<notes/>deep</notes>tail</notes><title>After</title>\
<genres><genre>Jazz</genre></genres>";
    let run = convert(&document(&release(3, body))).unwrap();
    let batch = &run.batches[0];
    assert_eq!(titles(batch), vec!["After"]);
    assert_eq!(text_lists(batch, 4), vec![vec!["Jazz".to_string()]]);
}

#[test]
fn ignored_subtrees_are_skipped() {
    let body = "<extraartists><artist><id>1</id><name>N</name><role>Producer</role></artist></extraartists>\
<formats><format name=\"CD\" qty=\"1\"><descriptions><description>Album</description></descriptions></format></formats>\
<country>UK</country><data_quality>Correct</data_quality><master_id is_main_release=\"true\">5</master_id>\
<tracklist><track><position>1</position><title>Not the title</title></track></tracklist>\
<videos><video src=\"u\"><title>Neither</title></video></videos><released>1999</released>\
<companies><company><id>1</id></company></companies><notes>text</notes>\
<identifiers><identifier type=\"Barcode\" value=\"1\"/></identifiers>\
<images><image type=\"primary\"/><image type=\"secondary\"/></images><unknown_but_empty/>\
<title>Real</title>";
    let run = convert(&document(&release(3, body))).unwrap();
    let batch = &run.batches[0];
    assert_eq!(titles(batch), vec!["Real"]);
    assert_eq!(record_lists(batch, 3), vec![Vec::<Vec<Option<String>>>::new()]);
}

#[test]
fn wrong_root_is_reported() {
    assert_eq!(failure("<release>\n"), ProcessingError::ExpectedStartOf("releases"));
    assert_eq!(failure("\n<releases>\n"), ProcessingError::ExpectedStartOf("releases"));
}

#[test]
fn missing_line_feeds_are_reported() {
    assert_eq!(failure("<releases><release id=\"1\" status=\"Draft\">"), ProcessingError::ExpectedNewline);
    assert_eq!(failure("<releases> \n</releases>\n"), ProcessingError::ExpectedNewline);
    assert_eq!(
        failure("<releases>\n<release id=\"1\" status=\"Draft\"><title>T</title></release></releases>\n"),
        ProcessingError::ExpectedNewline
    );
    assert_eq!(failure("<releases>\n</releases>"), ProcessingError::ExpectedNewline);
}

#[test]
fn wrong_record_element_is_reported() {
    assert_eq!(
        failure("<releases>\n<artist id=\"1\" status=\"Draft\"></artist>\n</releases>\n"),
        ProcessingError::ExpectedStartOf("release")
    );
    assert_eq!(
        failure("<releases>\n<!-- none -->\n</releases>\n"),
        ProcessingError::ExpectedStartOf("release")
    );
}

#[test]
fn text_between_children_is_reported() {
    assert_eq!(failure(&document(&release(1, "<title>T</title> "))), ProcessingError::ExpectedStart);
    assert_eq!(
        failure(&document(&release(1, "<artists><artist>x</artist></artists>"))),
        ProcessingError::ExpectedStart
    );
}

#[test]
fn broken_title_is_reported() {
    assert_eq!(failure(&document(&release(1, "<title></title>"))), ProcessingError::ExpectedText);
    assert_eq!(
        failure(&document(&release(1, "<title>T<b>x</b></title>"))),
        ProcessingError::ExpectedEndOf("title")
    );
}

#[test]
fn broken_lists_are_reported() {
    assert_eq!(
        failure(&document(&release(1, "<genres><style>x</style></genres>"))),
        ProcessingError::ExpectedStartOf("genre")
    );
    assert_eq!(
        failure(&document(&release(1, "<styles><genre>x</genre></styles>"))),
        ProcessingError::ExpectedStartOf("style")
    );
    assert_eq!(
        failure(&document(&release(1, "<genres><genre></genre></genres>"))),
        ProcessingError::ExpectedText
    );
    assert_eq!(
        failure(&document(&release(1, "<styles><style>a<i/></style></styles>"))),
        ProcessingError::ExpectedEndOf("style")
    );
    assert_eq!(
        failure(&document(&release(1, "<genres><genre>a<i/></genre></genres>"))),
        ProcessingError::ExpectedEndOf("genre")
    );
}

#[test]
fn broken_labels_and_images_are_reported() {
    assert_eq!(
        failure(&document(&release(1, "<labels><label id=\"1\" catno=\"c\" name=\"n\"></label></labels>"))),
        ProcessingError::ExpectedEmpty("label")
    );
    assert_eq!(
        failure(&document(&release(1, "<images><picture/></images>"))),
        ProcessingError::ExpectedEmpty("image")
    );
}

#[test]
fn broken_artists_are_reported() {
    assert_eq!(
        failure(&document(&release(1, "<artists><label/></artists>"))),
        ProcessingError::ExpectedStartOf("artist")
    );
    assert_eq!(
        failure(&document(&release(1, "<artists><artist><id></id></artist></artists>"))),
        ProcessingError::ExpectedText
    );
    assert_eq!(
        failure(&document(&release(1, "<artists><artist><name>N<b/></name></artist></artists>"))),
        ProcessingError::ExpectedEndOf("name")
    );
    assert_eq!(
        failure(&document(&release(1, "<artists><artist><anv><b/></anv></artist></artists>"))),
        ProcessingError::ExpectedText
    );
    assert_eq!(
        failure(&document(&release(1, "<artists><artist><join>j<b/></join></artist></artists>"))),
        ProcessingError::ExpectedEndOf("join")
    );
    assert_eq!(
        failure(&document(&release(1, "<artists><artist><role>Producer</role></artist></artists>"))),
        ProcessingError::ExpectedEndOf("role")
    );
    assert_eq!(
        failure(&document(&release(1, "<artists><artist><tracks>1</tracks></artist></artists>"))),
        ProcessingError::ExpectedEndOf("tracks")
    );
}

#[test]
fn trailing_content_is_reported() {
    assert_eq!(failure("<releases>\n</releases>\n<more/>"), ProcessingError::ExpectedEof);
}

#[test]
fn unknown_elements_are_not_admitted() {
    assert!(refused(&document(&release(1, "<title>T</title><surprise>x</surprise>"))));
    assert!(refused(&document(&release(
        1,
        "<artists><artist><id>1</id><surprise>x</surprise></artist></artists>"
    ))));
}

#[test]
fn fields_written_twice_are_not_admitted() {
    assert!(refused(&document(&release(1, "<title>T</title><title>U</title>"))));
    assert!(refused(&document(&release(
        1,
        "<title>T</title><artists><artist><id>1</id><id>2</id></artist></artists>"
    ))));
}

#[test]
fn fields_left_out_are_not_admitted() {
    assert!(refused(&document(&release(1, "<genres></genres>"))));
    assert!(refused(&document(&release(
        1,
        "<title>T</title><artists><artist><id>1</id><name>N</name><anv></anv></artist></artists>"
    ))));
    assert!(refused(&document(&release(1, "<title>T</title><labels><label id=\"1\" name=\"n\"/></labels>"))));
    assert!(refused("<releases>\n<release status=\"Draft\"><title>T</title></release>\n</releases>\n"));
    assert!(refused("<releases>\n<release id=\"1\"><title>T</title></release>\n</releases>\n"));
}

#[test]
fn identifiers_that_are_no_numbers_are_not_admitted() {
    assert!(refused("<releases>\n<release id=\"x1\" status=\"Draft\"><title>T</title></release>\n</releases>\n"));
    assert!(refused(
        "<releases>\n<release id=\"4294967296\" status=\"Draft\"><title>T</title></release>\n</releases>\n"
    ));
}

#[test]
fn text_that_is_not_utf8_is_not_admitted() {
    let mut tokens = tokens_of(&document(&release(1, "<title>T</title>")));
    let at = tokens.iter().position(|token| *token == Token::Text(b"T".to_vec())).unwrap();
    tokens[at] = Token::Text(vec![0x54, 0xff, 0x54]);
    assert!(matches!(run(&tokens), Err(Stop::Refused(refused)) if refused == at));
    tokens[at] = Token::Text(vec![0x54, 0xc3, 0xa9]);
    assert_eq!(titles(&run(&tokens).unwrap().batches[0]), vec!["Té"]);
}

#[test]
fn end_of_input_inside_an_ignored_subtree_is_not_admitted() {
    let tokens = tokens_of("<releases>\n<release id=\"1\" status=\"Draft\"><notes>never closed");
    assert!(matches!(run(&tokens), Err(Stop::Refused(at)) if at == tokens.len() - 1));
}

#[test]
fn nothing_is_admitted_after_the_end() {
    let mut tokens = tokens_of("<releases>\n</releases>\n");
    tokens.push(Token::Eof);
    assert!(matches!(run(&tokens), Err(Stop::Refused(at)) if at == tokens.len() - 1));
}

#[test]
fn failed_token_changes_nothing() {
    let mut dispatcher = Dispatcher::new();
    for token in tokens_of("<releases>\n<release id=\"1\" status=\"Draft\"><title>") {
        if token != Token::Eof {
            assert!(matches!(dispatcher.feed(&token), Ok(Action::Continue)));
        }
    }
    assert_eq!(dispatcher.position(), Position::Title);
    let wrong = Token::End(b"title".to_vec());
    assert!(dispatcher.accepts(&wrong));
    assert!(matches!(dispatcher.feed(&wrong), Err(ProcessingError::ExpectedText)));
    assert_eq!(dispatcher.position(), Position::Title);
    assert_eq!(dispatcher.pending(), 0);
    assert!(matches!(dispatcher.feed(&Token::Text(b"T".to_vec())), Ok(Action::Continue)));
    assert_eq!(dispatcher.position(), Position::TitleEnd);
}

#[test]
fn token_that_is_not_admitted_is_not_taken() {
    let mut dispatcher = Dispatcher::new();
    for token in tokens_of("<releases>\n<release id=\"1\" status=\"Draft\">") {
        if token != Token::Eof {
            assert!(matches!(dispatcher.try_feed(&token), Some(Ok(Action::Continue))));
        }
    }
    assert_eq!(dispatcher.position(), Position::ChildLoop);
    let unknown = Token::Start(Tag { name: b"surprise".to_vec(), attributes: Vec::new() });
    assert!(!dispatcher.accepts(&unknown));
    assert!(dispatcher.try_feed(&unknown).is_none());
    assert_eq!(dispatcher.position(), Position::ChildLoop);
    let early = Token::End(b"release".to_vec());
    assert!(dispatcher.try_feed(&early).is_none());
    assert_eq!(dispatcher.position(), Position::ChildLoop);
    let wrong = Token::Text(b"text".to_vec());
    assert!(matches!(dispatcher.try_feed(&wrong), Some(Err(ProcessingError::ExpectedStart))));
    assert_eq!(dispatcher.position(), Position::ChildLoop);
    for token in tokens_of("<title>T</title>") {
        if token != Token::Eof {
            assert!(matches!(dispatcher.try_feed(&token), Some(Ok(Action::Continue))));
        }
    }
    assert!(matches!(dispatcher.try_feed(&early), Some(Ok(Action::Continue))));
    assert_eq!(dispatcher.position(), Position::RecordClosed);
    assert!(matches!(
        dispatcher.try_feed(&Token::Text(b"\n".to_vec())),
        Some(Ok(Action::Released(None)))
    ));
    assert_eq!(dispatcher.pending(), 1);
    assert!(!dispatcher.is_done());
}
